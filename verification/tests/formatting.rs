use iot_gateway::decimal::to_decimal;
use iot_gateway::duration::format_duration;
use iot_gateway::message::numbered_payload;

#[test]
fn decimal_of_zero_is_a_single_digit() {
    assert_eq!(to_decimal(0), "0");
}

#[test]
fn decimal_matches_std_rendering() {
    for n in [1u64, 9, 10, 42, 100, 999, 1000, 65_535, 1_234_567_890, u64::MAX] {
        assert_eq!(to_decimal(n), n.to_string());
    }
}

#[test]
fn duration_under_a_minute_shows_seconds_only() {
    assert_eq!(format_duration(0), "0s");
    assert_eq!(format_duration(59), "59s");
}

#[test]
fn duration_under_an_hour_shows_minutes_and_seconds() {
    assert_eq!(format_duration(60), "1m0s");
    assert_eq!(format_duration(125), "2m5s");
    assert_eq!(format_duration(3599), "59m59s");
}

#[test]
fn duration_of_an_hour_or_more_shows_all_parts() {
    assert_eq!(format_duration(3600), "1h0m0s");
    assert_eq!(format_duration(3661), "1h1m1s");
    assert_eq!(format_duration(90_061), "25h1m1s");
}

#[test]
fn duration_parts_add_back_up() {
    for total in [0u64, 59, 61, 3599, 3601, 86_399, 123_456] {
        let text = format_duration(total);
        let mut hours = 0u64;
        let mut minutes = 0u64;
        let mut seconds = 0u64;
        let mut current = 0u64;
        for c in text.chars() {
            match c {
                'h' => { hours = current; current = 0; }
                'm' => { minutes = current; current = 0; }
                's' => { seconds = current; current = 0; }
                d => current = current * 10 + d.to_digit(10).unwrap() as u64,
            }
        }
        assert_eq!(hours * 3600 + minutes * 60 + seconds, total);
        assert!(minutes < 60 && seconds < 60);
    }
}

#[test]
fn numbered_payload_appends_the_number() {
    assert_eq!(numbered_payload("Test data message #", 3), "Test data message #3");
    assert_eq!(numbered_payload("", 0), "0");
}
