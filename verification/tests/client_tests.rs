use flashduty_sdk::models::EventStatus;
use flashduty_sdk::FlashDutyClient;

#[test]
fn test_client_create_and_shutdown() {
    let mut client = FlashDutyClient::new("test-key".to_string());
    // Enqueue an event (will fail to send but should not panic)
    client.send_alert(
        EventStatus::Warning,
        "test alert".to_string(),
        None,
        None,
        None,
        None,
    );
    client.shutdown();
    // Double shutdown should be safe
    client.shutdown();
}

#[test]
fn test_send_after_shutdown_is_ignored() {
    let mut client = FlashDutyClient::new("test-key".to_string());
    client.shutdown();
    // This should not panic
    client.send_alert(
        EventStatus::Warning,
        "ignored alert".to_string(),
        None,
        None,
        None,
        None,
    );
}

#[test]
fn submit_after_shutdown_never_enqueues() {
    let mut client = FlashDutyClient::new("k".to_string());
    assert!(!client.is_shut_down());
    client.shutdown();
    assert!(client.is_shut_down());
    client.send_alert(
        EventStatus::Info,
        "late".to_string(),
        None,
        None,
        None,
        None,
    );
    assert_eq!(client.pending_count(), 0);
    // No delivery attempt can follow: a later drain hands nothing out.
    assert!(client.shutdown().is_none());
}

#[test]
fn shutdown_is_idempotent_and_drains_once() {
    let mut client = FlashDutyClient::new("k".to_string());
    client.send_alert(EventStatus::Okay, "a".to_string(), None, None, None, None);
    let first = client.shutdown();
    let second = client.shutdown();
    let drained = first.expect("the first shutdown performs the drain");
    assert_eq!(drained.len(), 1);
    assert_eq!(drained[0].title_rule, "a");
    assert!(second.is_none());
    assert!(client.is_shut_down());
    assert_eq!(client.pending_count(), 0);
}

#[test]
fn events_are_drained_in_fifo_submission_order() {
    let mut client = FlashDutyClient::new("k".to_string());
    client.send_alert(
        EventStatus::Okay,
        "first".to_string(),
        None,
        None,
        None,
        None,
    );
    client.send_alert(
        EventStatus::Warning,
        "second".to_string(),
        None,
        None,
        None,
        None,
    );
    client.send_alert(
        EventStatus::Critical,
        "third".to_string(),
        None,
        None,
        None,
        None,
    );
    let drained = client.shutdown().expect("first shutdown drains");
    let titles: Vec<&str> = drained.iter().map(|e| e.title_rule.as_str()).collect();
    assert_eq!(titles, vec!["first", "second", "third"]);
}

#[test]
fn next_event_dequeues_in_submission_order() {
    let mut client = FlashDutyClient::new("k".to_string());
    client.send_alert(EventStatus::Okay, "a".to_string(), None, None, None, None);
    client.send_alert(EventStatus::Okay, "b".to_string(), None, None, None, None);
    let a = client.next_event().expect("two events are pending");
    let b = client.next_event().expect("one event is pending");
    assert_eq!(a.title_rule, "a");
    assert_eq!(b.title_rule, "b");
    assert!(client.next_event().is_none());
}

#[test]
fn submission_stamps_the_shared_integration_key() {
    let mut client = FlashDutyClient::new("shared-key".to_string());
    client.send_alert(
        EventStatus::Info,
        "x".to_string(),
        Some("ak".to_string()),
        Some("desc".to_string()),
        None,
        None,
    );
    let drained = client.shutdown().expect("first shutdown drains");
    assert_eq!(drained[0].integration_key, "shared-key");
    assert_eq!(drained[0].event_status, EventStatus::Info);
    assert_eq!(drained[0].alert_key.as_deref(), Some("ak"));
    assert_eq!(drained[0].description.as_deref(), Some("desc"));
}

#[test]
fn warning_with_labels_is_handed_to_delivery_before_shutdown_returns() {
    let mut client = FlashDutyClient::new("k".to_string());
    client.send_alert(
        EventStatus::Warning,
        "disk full".to_string(),
        None,
        None,
        Some(vec![("host".to_string(), "db1".to_string())]),
        None,
    );
    let drained = client.shutdown().expect("first shutdown drains");
    assert_eq!(drained.len(), 1);
    assert_eq!(drained[0].title_rule, "disk full");
    assert_eq!(
        drained[0].labels,
        Some(vec![("host".to_string(), "db1".to_string())])
    );
    // Nothing is left behind: the drain handed the event to delivery.
    assert_eq!(client.pending_count(), 0);
}
