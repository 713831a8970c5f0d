use uptime_monitor::command::{is_subscribe_command, SUBSCRIBE_COMMAND, SUBSCRIBE_REPLY};
use uptime_monitor::text::{decimal, starts_with};

#[test]
fn decimal_of_zero() {
    assert_eq!(decimal(0), "0");
}

#[test]
fn decimal_of_single_digits() {
    assert_eq!(decimal(7), "7");
    assert_eq!(decimal(9), "9");
}

#[test]
fn decimal_of_status_codes() {
    assert_eq!(decimal(10), "10");
    assert_eq!(decimal(200), "200");
    assert_eq!(decimal(503), "503");
}

#[test]
fn decimal_of_largest_number() {
    assert_eq!(decimal(u64::MAX), "18446744073709551615");
}

#[test]
fn decimal_agrees_with_std_on_a_range() {
    let mut n: u64 = 0;
    while n < 5000 {
        assert_eq!(decimal(n), n.to_string());
        n += 1;
    }
    assert_eq!(decimal(1_000_000_007), "1000000007");
}

#[test]
fn starts_with_finds_a_prefix() {
    assert!(starts_with("!subscribe me", "!subscribe"));
    assert!(starts_with("abc", "abc"));
    assert!(starts_with("abc", ""));
    assert!(starts_with("", ""));
}

#[test]
fn starts_with_rejects_what_is_no_prefix() {
    assert!(!starts_with("ab", "abc"));
    assert!(!starts_with("", "a"));
    assert!(!starts_with("xabc", "abc"));
    assert!(!starts_with("abd", "abc"));
}

#[test]
fn starts_with_counts_characters_not_bytes() {
    assert!(starts_with("żółw idzie", "żółw"));
    assert!(!starts_with("zolw idzie", "żółw"));
}

#[test]
fn subscribe_command_is_recognised() {
    assert_eq!(SUBSCRIBE_COMMAND, "!subscribe");
    assert!(is_subscribe_command(false, "!subscribe"));
    assert!(is_subscribe_command(false, "!subscribe please"));
    assert!(is_subscribe_command(false, "!subscribed"));
}

#[test]
fn subscribe_command_from_a_bot_is_ignored() {
    assert!(!is_subscribe_command(true, "!subscribe"));
}

#[test]
fn other_messages_are_no_subscribe_command() {
    assert!(!is_subscribe_command(false, ""));
    assert!(!is_subscribe_command(false, "subscribe"));
    assert!(!is_subscribe_command(false, " !subscribe"));
    assert!(!is_subscribe_command(false, "!Subscribe"));
    assert!(!is_subscribe_command(false, "!subscrib"));
}

#[test]
fn subscribe_reply_text() {
    assert_eq!(SUBSCRIBE_REPLY, "Got it! Check you DMs!");
}
