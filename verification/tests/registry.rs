use iot_gateway::registry::{create_client_registry, get_client_count, register_client, unregister_client};

#[test]
fn new_registry_is_empty() {
    let r = create_client_registry();
    assert_eq!(get_client_count(&r), 0);
}

#[test]
fn registering_distinct_clients_counts_each() {
    let mut r = create_client_registry();
    register_client(&mut r, 1);
    register_client(&mut r, 2);
    register_client(&mut r, 0x550e8400_e29b_41d4_a716_446655440000);
    assert_eq!(get_client_count(&r), 3);
}

#[test]
fn registering_twice_counts_once() {
    let mut r = create_client_registry();
    register_client(&mut r, 7);
    register_client(&mut r, 7);
    assert_eq!(get_client_count(&r), 1);
}

#[test]
fn unregister_removes_only_that_client() {
    let mut r = create_client_registry();
    register_client(&mut r, 1);
    register_client(&mut r, 2);
    unregister_client(&mut r, 1);
    assert_eq!(get_client_count(&r), 1);
    unregister_client(&mut r, 1);
    assert_eq!(get_client_count(&r), 1);
    unregister_client(&mut r, 2);
    assert_eq!(get_client_count(&r), 0);
}

#[test]
fn register_then_unregister_restores_count() {
    let mut r = create_client_registry();
    register_client(&mut r, 10);
    let before = get_client_count(&r);
    register_client(&mut r, 11);
    unregister_client(&mut r, 11);
    assert_eq!(get_client_count(&r), before);
}

#[test]
fn register_at_counts_like_register() {
    let mut r = create_client_registry();
    let now = std::time::Instant::now();
    iot_gateway::registry::register_client_at(&mut r, 3, now);
    iot_gateway::registry::register_client_at(&mut r, 3, now);
    assert_eq!(get_client_count(&r), 1);
}
