use uptime_monitor::status::{HttpOutcome, ProbeOutcome, StatusMessage, HTTP_OK};

fn owned(text: &str) -> String {
    text.to_string()
}

#[test]
fn new_status_message_is_empty() {
    let message = StatusMessage::new();
    assert!(message.is_empty());
    assert_eq!(message.len(), 0);
    assert_eq!(message.text(), "");
}

#[test]
fn resolution_failure_line() {
    let mut message = StatusMessage::new();
    message.note_resolution_failed("an-prata.it", "no such host");
    assert_eq!(message.len(), 1);
    assert_eq!(message.line(0), "could not resolve hostname (an-prata.it): no such host");
    assert_eq!(message.text(), "could not resolve hostname (an-prata.it): no such host");
}

#[test]
fn idle_ping_line() {
    let mut message = StatusMessage::new();
    message.note_probe(&ProbeOutcome::Idle { address: owned("203.0.113.7") });
    assert_eq!(message.text(), "the fog idle at address: 203.0.113.7");
}

#[test]
fn failed_ping_line() {
    let mut message = StatusMessage::new();
    message.note_probe(&ProbeOutcome::Failed { error: owned("receiving on a closed channel") });
    assert_eq!(message.text(), "failed to ping the fog: receiving on a closed channel");
}

#[test]
fn received_ping_adds_no_line() {
    let mut message = StatusMessage::new();
    message.note_probe(
        &ProbeOutcome::Received { address: owned("203.0.113.7"), round_trip_micros: 1500 },
    );
    assert!(message.is_empty());
}

#[test]
fn matching_public_address_adds_no_line() {
    let mut message = StatusMessage::new();
    message.note_public_address(&owned("203.0.113.7"), &Some(owned("203.0.113.7")));
    assert!(message.is_empty());
}

#[test]
fn unknown_public_address_adds_no_line() {
    let mut message = StatusMessage::new();
    message.note_public_address(&owned("203.0.113.7"), &None);
    assert!(message.is_empty());
}

#[test]
fn differing_public_address_names_both() {
    let mut message = StatusMessage::new();
    message.note_public_address(&owned("203.0.113.7"), &Some(owned("198.51.100.9")));
    assert_eq!(
        message.text(),
        "the fog's address does not match DNS!: (pinged: `203.0.113.7`, expected: `198.51.100.9`)"
    );
}

#[test]
fn http_ok_adds_no_line() {
    assert_eq!(HTTP_OK, 200);
    let mut message = StatusMessage::new();
    message.note_http(&HttpOutcome::StatusCode(200));
    assert!(message.is_empty());
}

#[test]
fn http_bad_status_line() {
    let mut message = StatusMessage::new();
    message.note_http(&HttpOutcome::StatusCode(503));
    assert_eq!(message.text(), "bad response over http: `503`");
}

#[test]
fn http_other_success_codes_are_reported() {
    let mut message = StatusMessage::new();
    message.note_http(&HttpOutcome::StatusCode(204));
    message.note_http(&HttpOutcome::StatusCode(0));
    message.note_http(&HttpOutcome::StatusCode(u32::MAX));
    assert_eq!(message.line(0), "bad response over http: `204`");
    assert_eq!(message.line(1), "bad response over http: `0`");
    assert_eq!(message.line(2), "bad response over http: `4294967295`");
}

#[test]
fn http_failure_line() {
    let mut message = StatusMessage::new();
    message.note_http(&HttpOutcome::Failed { error: owned("Timeout was reached") });
    assert_eq!(message.text(), "failed to perform http request: `Timeout was reached`");
}

#[test]
fn lines_are_joined_by_line_feeds() {
    let mut message = StatusMessage::new();
    message.note_probe(&ProbeOutcome::Idle { address: owned("203.0.113.7") });
    message.note_http(&HttpOutcome::StatusCode(500));
    message.push_line(owned("third"));
    assert_eq!(message.len(), 3);
    assert_eq!(
        message.text(),
        "the fog idle at address: 203.0.113.7\nbad response over http: `500`\nthird"
    );
}

#[test]
fn push_line_keeps_the_order() {
    let mut message = StatusMessage::new();
    message.push_line(owned("one"));
    message.push_line(owned("two"));
    assert_eq!(message.line(0), "one");
    assert_eq!(message.line(1), "two");
    assert!(!message.is_empty());
}
