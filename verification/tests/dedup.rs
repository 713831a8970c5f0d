use uptime_monitor::dedup::{decide, is_same_err, DedupState, RECOVERY_MESSAGE};

fn s(text: &str) -> String {
    text.to_string()
}

#[test]
fn same_label_different_detail_is_same_kind() {
    assert!(is_same_err(
        &s("could not resolve hostname (an-prata.it): timed out"),
        &s("could not resolve hostname (an-prata.it): no such host"),
    ));
}

#[test]
fn identical_texts_with_colon_are_same_kind() {
    assert!(is_same_err(&s("a: b"), &s("a: b")));
}

#[test]
fn texts_without_colon_are_never_same_kind() {
    assert!(!is_same_err(&s("all is lost"), &s("all is lost")));
    assert!(!is_same_err(&s("abc"), &s("abd")));
}

#[test]
fn texts_differing_before_colon_are_different_kinds() {
    assert!(!is_same_err(&s("failed to ping the fog: x"), &s("failed to perform http request: x")));
}

#[test]
fn colon_in_only_one_text_is_different_kind() {
    assert!(!is_same_err(&s("abc:"), &s("abc")));
    assert!(!is_same_err(&s("abc"), &s("abc:")));
    assert!(!is_same_err(&s("ab:c"), &s("abc:")));
}

#[test]
fn empty_text_is_same_kind_as_nothing() {
    assert!(!is_same_err(&s(""), &s("")));
    assert!(!is_same_err(&s(""), &s("a: b")));
    assert!(!is_same_err(&s("a: b"), &s("")));
}

#[test]
fn leading_colon_is_a_kind() {
    assert!(is_same_err(&s(":x"), &s(":y")));
}

#[test]
fn only_the_first_colon_counts() {
    assert!(is_same_err(&s("a: b: c"), &s("a: d: e")));
    assert!(!is_same_err(&s("a; b: c"), &s("a: b: c")));
}

#[test]
fn same_kind_is_symmetric_on_examples() {
    let pairs = [("a: b", "a: c"), ("a: b", "b: a"), ("", "a:"), ("x", "x")];
    for (a, b) in pairs {
        assert_eq!(is_same_err(&s(a), &s(b)), is_same_err(&s(b), &s(a)));
    }
}

#[test]
fn non_ascii_texts_are_compared_by_character() {
    assert!(is_same_err(&s("zażółć: a"), &s("zażółć: b")));
    assert!(!is_same_err(&s("zażółć: a"), &s("zazolc: a")));
}

#[test]
fn decide_announces_a_new_failure() {
    assert_eq!(decide(&s("a: b"), &s("")), Some(s("a: b")));
}

#[test]
fn decide_suppresses_a_repeated_failure() {
    assert_eq!(decide(&s("a: c"), &s("a: b")), None);
}

#[test]
fn decide_announces_a_changed_failure() {
    assert_eq!(decide(&s("b: c"), &s("a: b")), Some(s("b: c")));
}

#[test]
fn decide_announces_recovery() {
    assert_eq!(decide(&s(""), &s("a: b")), Some(s("service is functioning normally again")));
    assert_eq!(RECOVERY_MESSAGE, "service is functioning normally again");
}

#[test]
fn decide_stays_silent_while_healthy() {
    assert_eq!(decide(&s(""), &s("")), None);
}

#[test]
fn decide_announces_a_text_without_colon_every_time() {
    assert_eq!(decide(&s("down"), &s("down")), Some(s("down")));
}

#[test]
fn fresh_state_remembers_nothing() {
    let state = DedupState::new();
    assert_eq!(state.previous(), "");
}

#[test]
fn second_text_of_same_kind_is_suppressed_after_the_first() {
    let mut state = DedupState::new();
    assert_eq!(state.observe(s("disk: full")), Some(s("disk: full")));
    assert_eq!(state.observe(s("disk: nearly full")), None);
    assert_eq!(state.previous(), "disk: nearly full");
}

#[test]
fn two_texts_of_different_kinds_are_both_announced() {
    let mut state = DedupState::new();
    assert_eq!(state.observe(s("disk: full")), Some(s("disk: full")));
    assert_eq!(state.observe(s("net: down")), Some(s("net: down")));
    let mut other = DedupState::new();
    assert_eq!(other.observe(s("down")), Some(s("down")));
    assert_eq!(other.observe(s("down")), Some(s("down")));
}

#[test]
fn recovery_is_announced_and_state_reset() {
    let mut state = DedupState::new();
    state.observe(s("anything at all"));
    assert_eq!(state.observe(s("")), Some(s(RECOVERY_MESSAGE)));
    assert_eq!(state.previous(), "");
    assert_eq!(state.observe(s("")), None);
    assert_eq!(state.previous(), "");
}

#[test]
fn state_is_overwritten_even_when_suppressed() {
    let mut state = DedupState::new();
    state.observe(s("a: 1"));
    assert_eq!(state.observe(s("a: 2")), None);
    assert_eq!(state.previous(), "a: 2");
    assert_eq!(state.observe(s("a: 2")), None);
}

#[test]
fn failure_after_recovery_is_announced_again() {
    let mut state = DedupState::new();
    assert_eq!(state.observe(s("a: 1")), Some(s("a: 1")));
    assert_eq!(state.observe(s("")), Some(s(RECOVERY_MESSAGE)));
    assert_eq!(state.observe(s("a: 1")), Some(s("a: 1")));
}
