//! API keys: finding the key in a request's query string and deciding
//! whether it authorizes the request.

use vstd::prelude::*;
use crate::models::Key;
use crate::number::{parse_i64, spec_parse_i64};
use crate::pattern::{regex_captures_group, regex_capture, regex_compiles, CompiledRegex, PatternError};

verus! {

/// How a request's API key was judged.
#[derive(Clone, Copy, Debug, PartialEq, Eq, Structural)]
pub enum KeyState {
    /// The key is a known key.
    Valid,
    /// The key is an integer but not a known key.
    Invalid,
    /// The `key` query variable is not an integer.
    NotI64,
    /// There is no query string, or no `key` variable in it.
    MissingVar,
}

/// The first step of judging a key: either the judgement is already made
/// from the query string alone, or the given key must be looked up.
#[derive(Clone, Copy, Debug, PartialEq, Eq, Structural)]
pub enum KeyCheck {
    Decided(KeyState),
    Lookup(i64),
}

/// The pattern that finds the key in a query string: the text after
/// `key=` up to the next `&`.
pub open spec fn key_pattern() -> Seq<char> {
    "key=([^&]+)"@
}

pub open spec fn opt_str_view(s: Option<&str>) -> Option<Seq<char>> {
    match s {
        Some(t) => Some(t@),
        None => None,
    }
}

/// What the query string alone says of the key.
pub open spec fn spec_key_check(query: Option<Seq<char>>) -> KeyCheck {
    match query {
        None => KeyCheck::Decided(KeyState::MissingVar),
        Some(q) => match regex_capture(key_pattern(), q, 1) {
            None => KeyCheck::Decided(KeyState::MissingVar),
            Some(text) => match spec_parse_i64(text) {
                Ok(v) => KeyCheck::Lookup(v as i64),
                Err(_) => KeyCheck::Decided(KeyState::NotI64),
            },
        },
    }
}

/// The compiled key pattern.
pub struct KeyMatcher {
    re: CompiledRegex,
}

impl KeyMatcher {
    #[verifier::type_invariant]
    spec fn compiled_from_key_pattern(self) -> bool {
        self.re.source() == key_pattern()
    }

    /// Compiles the key pattern; fails exactly when the `regex` crate refuses it.
    pub fn new() -> (r: Result<KeyMatcher, PatternError>)
        ensures
            r is Ok <==> regex_compiles(key_pattern()),
    {
        match CompiledRegex::new("key=([^&]+)") {
            Ok(re) => Ok(KeyMatcher { re }),
            Err(e) => Err(e),
        }
    }
}

/// Judges the key of a request from its query string, as far as that can
/// be done without looking the key up.
pub fn validate_key(matcher: &KeyMatcher, query: Option<&str>) -> (r: KeyCheck)
    ensures
        r == spec_key_check(opt_str_view(query)),
{
    proof {
        use_type_invariant(matcher);
    }
    match query {
        None => KeyCheck::Decided(KeyState::MissingVar),
        Some(q) => match regex_captures_group(&matcher.re, q, 1) {
            None => KeyCheck::Decided(KeyState::MissingVar),
            Some(text) => match parse_i64(text.as_str()) {
                Ok(v) => KeyCheck::Lookup(v),
                Err(_) => KeyCheck::Decided(KeyState::NotI64),
            },
        },
    }
}

/// A key is valid when looking it up finds exactly one stored key.
pub fn is_valid_key(results: &Vec<Key>) -> (r: bool)
    ensures
        r == (results@.len() == 1),
{
    results.len() == 1
}

/// Completes the judgement of a key from the stored keys that the lookup
/// found.
pub fn lookup_key_state(results: &Vec<Key>) -> (r: KeyState)
    ensures
        r == (if results@.len() == 1 { KeyState::Valid } else { KeyState::Invalid }),
{
    if is_valid_key(results) {
        KeyState::Valid
    } else {
        KeyState::Invalid
    }
}

} // verus!
