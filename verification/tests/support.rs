use t1_daemons::auth_protocol::BrokerState;
use t1_daemons::decimal::{is_canonical, parse_u32, push_decimal};
use t1_daemons::pam_client::parse_user_id;
use t1_daemons::process_status::parse_effective_uid;
use t1_daemons::time::Duration;

#[test]
fn durations_saturate_check_and_compare_exactly() {
    assert_eq!(Duration::from_secs(1), Duration::from_millis(1_000));
    assert_eq!(Duration::from_millis(1), Duration::from_nanos(1_000_000));
    assert_eq!(Duration::from_parts(1, 5), Some(Duration::from_nanos(1_000_000_005)));
    assert_eq!(Duration::from_parts(1, 1_000_000_000), None);
    assert!(Duration::zero().is_zero());
    assert!(!Duration::from_nanos(1).is_zero());
    assert_eq!(Duration::max().checked_add(Duration::from_nanos(1)), None);
    assert_eq!(Duration::max().saturating_add(Duration::from_secs(1)), Duration::max());
    assert_eq!(
        Duration::from_parts(u64::MAX, 999_999_999),
        Some(Duration::max())
    );
    assert_eq!(Duration::zero().checked_sub(Duration::from_nanos(1)), None);
    assert_eq!(
        Duration::from_secs(1).saturating_sub(Duration::from_secs(2)),
        Duration::zero()
    );
    assert!(Duration::from_secs(1).at_least(Duration::from_secs(1)));
    assert!(!Duration::from_secs(1).at_least(Duration::from_nanos(1_000_000_001)));
    assert_eq!(
        Duration::from_secs(2).shorter(Duration::from_millis(5)),
        Duration::from_millis(5)
    );
}

#[test]
fn numerals_are_canonical() {
    let mut out = b"n=".to_vec();
    push_decimal(&mut out, 0);
    push_decimal(&mut out, u64::MAX);
    assert_eq!(out, b"n=018446744073709551615");
    assert!(is_canonical(b"0"));
    assert!(is_canonical(b"10"));
    assert!(!is_canonical(b""));
    assert!(!is_canonical(b"01"));
    assert!(!is_canonical(b"1 "));
    assert_eq!(parse_u32(b"4294967295"), Some(u32::MAX));
    assert_eq!(parse_u32(b"4294967296"), None);
}

#[test]
fn effective_user_is_the_second_field_of_the_uid_line() {
    assert_eq!(
        parse_effective_uid(b"Name:\tt1\nUid:\t1000\t1001\t1002\t1003\nGid:\t5\t5\t5\t5\n"),
        Some(1001)
    );
    assert_eq!(parse_effective_uid(b"Name:\tt1\n"), None);
    assert_eq!(parse_effective_uid(b"Uid:\t1000\n"), None);
    assert_eq!(parse_effective_uid(b"Uid:\t1000\tx\n"), None);
}

#[test]
fn user_arguments_are_numbers() {
    assert!(parse_user_id(b"42000") == Some(42_000));
    assert!(parse_user_id(b"").is_none());
    assert!(parse_user_id(b"x").is_none());
}

#[test]
fn fresh_brokers_are_idle() {
    let state = BrokerState::default();
    assert_eq!(
        state.diagnostic(),
        "BrokerState { active: false, cancellation_requested: false, .. }"
    );
    assert!(matches!(
        BrokerState::starting_at(0).diagnostic(),
        "BrokerState { active: false, cancellation_requested: false, .. }"
    ));
}
