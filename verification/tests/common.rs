use websocket::common::{ReadyState, ReconnectConfig, WsEvent, WsMessage};
use websocket::policy::BackoffPolicy;

#[test]
fn ready_state_reads_the_four_defined_numbers() {
    assert_eq!(ReadyState::from(0), ReadyState::Connecting);
    assert_eq!(ReadyState::from(1), ReadyState::Open);
    assert_eq!(ReadyState::from(2), ReadyState::Closing);
    assert_eq!(ReadyState::from(3), ReadyState::Closed);
}

#[test]
fn ready_state_keeps_any_other_number() {
    assert_eq!(ReadyState::from(4), ReadyState::Other(4));
    assert_eq!(ReadyState::from(u16::MAX), ReadyState::Other(u16::MAX));
}

#[test]
fn messages_and_events_compare_by_what_they_hold() {
    let text = WsMessage::Text("a".to_string());
    assert_eq!(text.clone(), text);
    assert_ne!(text, WsMessage::Binary(vec![b'a']));
    assert_eq!(WsEvent::Message(text.clone()), WsEvent::Message(text));
    assert_ne!(WsEvent::Open, WsEvent::Close);
}

#[test]
fn a_new_config_is_idle_at_the_initial_interval() {
    let cfg = ReconnectConfig::new();
    assert!(!cfg.is_reconnecting());
    assert_eq!(cfg.current_interval(), 500);
    assert_eq!(cfg.policy(), BackoffPolicy::new(500, 1500, 60_000));
    assert_eq!(ReconnectConfig::default(), cfg);
}

#[test]
fn next_backoff_marks_the_config_active_and_moves_the_interval() {
    let mut cfg = ReconnectConfig::new();
    assert_eq!(cfg.next_backoff(0), 250);
    assert!(cfg.is_reconnecting());
    assert_eq!(cfg.current_interval(), 750);
    assert_eq!(cfg.next_backoff(u32::MAX), 1125);
    assert_eq!(cfg.current_interval(), 1125);
}

#[test]
fn consecutive_backoffs_climb_to_the_maximum_and_stay() {
    let mut cfg = ReconnectConfig::new();
    let mut last = cfg.current_interval();
    for round in 0..30u32 {
        let ceiling = cfg.current_interval();
        let delay = cfg.next_backoff(round.wrapping_mul(0x9E37_79B9));
        assert!(ceiling >= last);
        assert!(delay * 2 >= ceiling);
        assert!(delay * 2 <= ceiling * 3);
        last = ceiling;
    }
    assert_eq!(cfg.current_interval(), 60_000);
    cfg.next_backoff(1);
    assert_eq!(cfg.current_interval(), 60_000);
}

#[test]
fn reset_returns_to_the_initial_interval_and_is_idempotent() {
    let mut cfg = ReconnectConfig::new();
    for _ in 0..5 {
        cfg.next_backoff(7);
    }
    assert!(cfg.is_reconnecting());
    cfg.reset();
    assert!(!cfg.is_reconnecting());
    assert_eq!(cfg, ReconnectConfig::new());
    cfg.reset();
    assert_eq!(cfg, ReconnectConfig::new());
    assert_eq!(cfg.next_backoff(0), 250);
}

#[test]
fn new_custom_takes_the_given_parameters() {
    let mut cfg = ReconnectConfig::new_custom(100, 2_000, 5_000);
    assert_eq!(cfg.policy().randomization_factor, 100);
    assert_eq!(cfg.policy().multiplier, 2_000);
    assert_eq!(cfg.policy().max_interval, 5_000);
    assert_eq!(cfg.current_interval(), 500);
    assert_eq!(cfg.next_backoff(0), 450);
    assert_eq!(cfg.next_backoff(u32::MAX), 1_100);
    assert_eq!(cfg.current_interval(), 2_000);
    cfg.next_backoff(0);
    cfg.next_backoff(0);
    assert_eq!(cfg.current_interval(), 5_000);
}

#[test]
fn new_custom_brings_degenerate_parameters_into_range() {
    let mut cfg = ReconnectConfig::new_custom(9_999, 0, 200);
    assert_eq!(cfg.policy().randomization_factor, 1_000);
    assert_eq!(cfg.policy().multiplier, 1_000);
    assert_eq!(cfg.current_interval(), 200);
    assert_eq!(cfg.next_backoff(0), 0);
    assert_eq!(cfg.next_backoff(u32::MAX), 400);
    assert_eq!(cfg.current_interval(), 200);
    let mut zero = ReconnectConfig::new_custom(500, 1_500, 0);
    assert_eq!(zero.next_backoff(u32::MAX), 0);
    assert_eq!(zero.current_interval(), 0);
}

#[test]
fn with_policy_starts_at_the_initial_interval_of_the_policy() {
    let policy = BackoffPolicy {
        initial_interval: 2_000,
        randomization_factor: 250,
        multiplier: 3_000,
        max_interval: 10_000,
    };
    let mut cfg = ReconnectConfig::with_policy(policy);
    assert_eq!(cfg.policy(), policy);
    assert!(!cfg.is_reconnecting());
    assert_eq!(cfg.current_interval(), 2_000);
    assert_eq!(cfg.next_backoff(0), 1_500);
    assert_eq!(cfg.current_interval(), 6_000);
    assert_eq!(cfg.next_backoff(u32::MAX), 7_500);
    assert_eq!(cfg.current_interval(), 10_000);
    cfg.reset();
    assert_eq!(cfg.current_interval(), 2_000);
    // An initial interval above the maximum counts as the maximum.
    let short = ReconnectConfig::with_policy(BackoffPolicy {
        max_interval: 1_000,
        ..policy
    });
    assert_eq!(short.current_interval(), 1_000);
}
