//! The registry of clients connected to the gateway, keyed by client id.

use vstd::prelude::*;
use std::collections::HashMap;
use std::time::Instant;
use crate::clock::instant_now;

verus! {

broadcast use vstd::std_specs::hash::group_hash_axioms;

/// What the gateway knows of a connected client. The id is the 128-bit value
/// of the client's UUID.
#[derive(Debug, Clone, Copy)]
pub struct ClientInfo {
    pub id: u128,
    pub connected_at: Instant,
    pub last_heartbeat: Instant,
}

/// The connected clients, each stored under its own id.
#[derive(Debug)]
pub struct ClientRegistry {
    clients: HashMap<u128, ClientInfo>,
}

impl View for ClientRegistry {
    type V = Map<u128, ClientInfo>;

    closed spec fn view(&self) -> Map<u128, ClientInfo> {
        self.clients@
    }
}

impl ClientRegistry {
    /// Every entry is stored under the id it records.
    #[verifier::type_invariant]
    pub(crate) closed spec fn entries_keyed_by_id(self) -> bool {
        keyed_by_id(self.clients@)
    }

    /// The type invariant, stated over the registry's view.
    pub(crate) proof fn lemma_invariant_keyed_by_id(self)
        requires
            self.entries_keyed_by_id(),
        ensures
            keyed_by_id(self@),
            self@.dom().finite(),
    {
    }
}

/// Each entry of `clients` is stored under the id that it records.
pub open spec fn keyed_by_id(clients: Map<u128, ClientInfo>) -> bool {
    forall|k: u128| #[trigger] clients.contains_key(k) ==> clients[k].id == k
}

/// A registry with no clients.
pub fn create_client_registry() -> (registry: ClientRegistry)
    ensures
        registry@ == Map::<u128, ClientInfo>::empty(),
        registry@.dom().finite(),
        keyed_by_id(registry@),
{
    ClientRegistry { clients: HashMap::new() }
}

/// Records `client_id` as connected now: the registry afterwards maps
/// `client_id` to a fresh entry whose connection time and last heartbeat are
/// the same reading of the clock, replacing any earlier entry for that id,
/// and every other entry is unchanged.
pub fn register_client(registry: &mut ClientRegistry, client_id: u128)
    ensures
        final(registry)@.contains_key(client_id),
        final(registry)@ == old(registry)@.insert(client_id, final(registry)@[client_id]),
        final(registry)@[client_id].id == client_id,
        final(registry)@[client_id].connected_at == final(registry)@[client_id].last_heartbeat,
        final(registry)@.dom().finite(),
        keyed_by_id(final(registry)@),
{
    let now = instant_now();
    register_client_at(registry, client_id, now);
}

/// Records `client_id` as connected at `now`: the registry afterwards maps
/// `client_id` to the entry `{ id: client_id, connected_at: now,
/// last_heartbeat: now }`, replacing any earlier entry for that id, and every
/// other entry is unchanged.
pub fn register_client_at(registry: &mut ClientRegistry, client_id: u128, now: Instant)
    ensures
        final(registry)@ == old(registry)@.insert(
            client_id,
            ClientInfo { id: client_id, connected_at: now, last_heartbeat: now },
        ),
        final(registry)@.dom().finite(),
        keyed_by_id(final(registry)@),
{
    proof { use_type_invariant(&*registry); }
    let info = ClientInfo { id: client_id, connected_at: now, last_heartbeat: now };
    let mut clients = HashMap::new();
    std::mem::swap(&mut clients, &mut registry.clients);
    clients.insert(client_id, info);
    registry.clients = clients;
}

/// Forgets `client_id`; every other entry is unchanged.
pub fn unregister_client(registry: &mut ClientRegistry, client_id: u128)
    ensures
        final(registry)@ == old(registry)@.remove(client_id),
        final(registry)@.dom().finite(),
        keyed_by_id(final(registry)@),
{
    proof { use_type_invariant(&*registry); }
    let mut clients = HashMap::new();
    std::mem::swap(&mut clients, &mut registry.clients);
    clients.remove(&client_id);
    registry.clients = clients;
}

/// The number of registered clients.
pub fn get_client_count(registry: &ClientRegistry) -> (count: usize)
    ensures
        count == registry@.len(),
        registry@.dom().finite(),
{
    registry.clients.len()
}

/// Registering a client that was not registered and then unregistering it
/// gives back the registry as it was, whatever entry registering stored.
pub proof fn lemma_register_then_unregister(clients: Map<u128, ClientInfo>, id: u128, info: ClientInfo)
    requires
        !clients.contains_key(id),
    ensures
        clients.insert(id, info).remove(id) == clients,
{
    assert(clients.insert(id, info).remove(id) =~= clients);
}

/// Registering adds one to the count of clients unless the client was
/// already registered; unregistering takes one off if it was registered.
pub proof fn lemma_count_after_changes(clients: Map<u128, ClientInfo>, id: u128, info: ClientInfo)
    requires
        clients.dom().finite(),
    ensures
        clients.insert(id, info).len() == if clients.contains_key(id) {
            clients.len()
        } else {
            clients.len() + 1
        },
        clients.remove(id).len() == if clients.contains_key(id) {
            clients.len() - 1
        } else {
            clients.len() as int
        },
{
    if clients.contains_key(id) {
        assert(clients.insert(id, info).dom() =~= clients.dom());
    }
    if !clients.contains_key(id) {
        assert(clients.remove(id) =~= clients);
    }
}

/// A registered client is found under its id; an unregistered one is not;
/// and both leave every other client as it was.
pub proof fn lemma_registration_is_read_back(clients: Map<u128, ClientInfo>, id: u128, other: u128, info: ClientInfo)
    requires
        other != id,
    ensures
        clients.insert(id, info).contains_key(id),
        clients.insert(id, info)[id] == info,
        !clients.remove(id).contains_key(id),
        clients.insert(id, info).contains_key(other) == clients.contains_key(other),
        clients.remove(id).contains_key(other) == clients.contains_key(other),
        clients.contains_key(other) ==> clients.insert(id, info)[other] == clients[other]
            && clients.remove(id)[other] == clients[other],
{
}

} // verus!
