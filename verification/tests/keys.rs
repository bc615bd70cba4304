use discord_bot_api::keys::{is_valid_key, lookup_key_state, validate_key, KeyCheck, KeyMatcher, KeyState};
use discord_bot_api::models::Key;

fn check(query: Option<&str>) -> KeyCheck {
    let matcher = KeyMatcher::new().expect("the key pattern compiles");
    validate_key(&matcher, query)
}

#[test]
fn missing_query_is_missing_key() {
    assert_eq!(check(None), KeyCheck::Decided(KeyState::MissingVar));
}

#[test]
fn query_without_key_is_missing_key() {
    assert_eq!(check(Some("user=4")), KeyCheck::Decided(KeyState::MissingVar));
    assert_eq!(check(Some("")), KeyCheck::Decided(KeyState::MissingVar));
    assert_eq!(check(Some("key=")), KeyCheck::Decided(KeyState::MissingVar));
    assert_eq!(check(Some("key=&a=1")), KeyCheck::Decided(KeyState::MissingVar));
}

#[test]
fn key_is_taken_up_to_the_next_ampersand() {
    assert_eq!(check(Some("key=42")), KeyCheck::Lookup(42));
    assert_eq!(check(Some("a=1&key=-7&b=2")), KeyCheck::Lookup(-7));
    assert_eq!(check(Some("key=12&")), KeyCheck::Lookup(12));
    assert_eq!(check(Some("monkey=5")), KeyCheck::Lookup(5));
}

#[test]
fn non_integer_key_is_not_i64() {
    assert_eq!(check(Some("key=abc")), KeyCheck::Decided(KeyState::NotI64));
    assert_eq!(check(Some("key=99999999999999999999")), KeyCheck::Decided(KeyState::NotI64));
    assert_eq!(check(Some("key=1 ")), KeyCheck::Decided(KeyState::NotI64));
}

#[test]
fn a_key_is_valid_when_found_once() {
    assert!(!is_valid_key(&vec![]));
    assert!(is_valid_key(&vec![Key { key: 9 }]));
    assert!(!is_valid_key(&vec![Key { key: 9 }, Key { key: 9 }]));
    assert_eq!(lookup_key_state(&vec![Key { key: 9 }]), KeyState::Valid);
    assert_eq!(lookup_key_state(&vec![]), KeyState::Invalid);
}
