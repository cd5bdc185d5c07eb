//! Validated construction: bounds, error payloads, and check order.

use prowl::CreationError;
use prowl::Notification;
use prowl::Priority;

fn keys() -> Vec<String> {
    vec!["KEY1".to_string()]
}

#[test]
fn new_within_bounds_preserves_fields() {
    let n = Notification::new(
        keys(),
        Some(Priority::High),
        Some("http://rust-lang.org/".to_string()),
        "My fancy app".to_string(),
        "Meet Single Crabs in your Area!".to_string(),
        "Zero-cost abstractions are waiting for you to claim them!".to_string(),
    )
    .expect("construction within bounds must succeed");
    assert!(matches!(n.priority(), Some(Priority::High)));
    assert_eq!(n.url().as_deref(), Some("http://rust-lang.org/"));
    assert_eq!(n.application(), "My fancy app");
    assert_eq!(n.event(), "Meet Single Crabs in your Area!");
    assert_eq!(
        n.description(),
        "Zero-cost abstractions are waiting for you to claim them!"
    );
}

#[test]
fn new_accepts_boundary_lengths() {
    let result = Notification::new(
        keys(),
        None,
        Some("u".repeat(512)),
        "a".repeat(256),
        "e".repeat(1024),
        "d".repeat(10000),
    );
    assert!(result.is_ok());
}

#[test]
fn application_over_256_is_rejected() {
    let result = Notification::new(
        keys(),
        None,
        None,
        "a".repeat(257),
        "Evt".to_string(),
        "Desc".to_string(),
    );
    assert_eq!(result.unwrap_err(), CreationError::ApplicationLength(257));
}

#[test]
fn event_over_1024_is_rejected() {
    let result = Notification::new(
        keys(),
        None,
        None,
        "App".to_string(),
        "e".repeat(1025),
        "Desc".to_string(),
    );
    assert_eq!(result.unwrap_err(), CreationError::EventLength(1025));
}

#[test]
fn description_over_10000_is_rejected() {
    let result = Notification::new(
        keys(),
        None,
        None,
        "App".to_string(),
        "Evt".to_string(),
        "d".repeat(10001),
    );
    assert_eq!(result.unwrap_err(), CreationError::DescriptionLength(10001));
}

#[test]
fn url_over_512_is_rejected() {
    let result = Notification::new(
        keys(),
        None,
        Some("u".repeat(513)),
        "App".to_string(),
        "Evt".to_string(),
        "Desc".to_string(),
    );
    assert_eq!(result.unwrap_err(), CreationError::InvalidUrlLength(513));
}

#[test]
fn application_is_checked_before_event() {
    let result = Notification::new(
        keys(),
        None,
        None,
        "a".repeat(257),
        "e".repeat(2000),
        "Desc".to_string(),
    );
    assert_eq!(result.unwrap_err(), CreationError::ApplicationLength(257));
}

#[test]
fn lengths_are_counted_in_bytes() {
    // 129 copies of a two-byte character: 258 bytes, over the limit of 256.
    let result = Notification::new(
        keys(),
        None,
        None,
        "\u{e9}".repeat(129),
        "Evt".to_string(),
        "Desc".to_string(),
    );
    assert_eq!(result.unwrap_err(), CreationError::ApplicationLength(258));
}
