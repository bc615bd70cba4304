//! Regular expressions, from the `regex` crate, as compiled patterns whose
//! source text the library keeps beside them.

use vstd::prelude::*;

verus! {

#[verifier::external_type_specification]
#[verifier::external_body]
pub struct ExRegex(regex::Regex);

#[verifier::external_type_specification]
#[verifier::external_body]
pub struct ExRegexError(regex::Error);

/// Whether the `regex` crate accepts `pattern` (its syntax, and the default
/// size limit on the compiled program).
pub uninterp spec fn regex_compiles(pattern: Seq<char>) -> bool;

/// The text that capture group `group` of `pattern` matches in the leftmost
/// match of `pattern` in `haystack`; `None` when there is no match, or the
/// group does not take part in it.
pub uninterp spec fn regex_capture(pattern: Seq<char>, haystack: Seq<char>, group: nat) -> Option<
    Seq<char>,
>;

/// A compiled regular expression together with the text it was compiled from.
pub struct CompiledRegex {
    re: regex::Regex,
    source: String,
}

/// The pattern could not be compiled.
#[derive(Clone, Copy, Debug, PartialEq, Eq, Structural)]
pub struct PatternError;

impl CompiledRegex {
    pub closed spec fn source(&self) -> Seq<char> {
        self.source@
    }
}

/// Calls `regex::Regex::new`. Trusted: it returns `Ok` exactly when the
/// crate accepts the pattern (the name `regex_compiles`), and the compiled
/// value is kept with a copy of the pattern text.
#[verifier::external_body]
fn regex_new(pattern: &str) -> (r: Result<CompiledRegex, regex::Error>)
    ensures
        r is Ok <==> regex_compiles(pattern@),
        r matches Ok(c) ==> c.source() == pattern@,
{
    regex::Regex::new(pattern).map(|re| CompiledRegex { re, source: pattern.to_string() })
}

/// Calls `regex::Regex::captures`, then `Captures::get(group)` and
/// `Match::as_str`. Trusted: the result is the name `regex_capture` of the
/// source pattern, the haystack and the group, and (as the crate documents
/// of a `Match`) a captured text is a substring of the haystack.
#[verifier::external_body]
pub(crate) fn regex_captures_group(re: &CompiledRegex, haystack: &str, group: usize) -> (r: Option<String>)
    ensures
        r is Some <==> regex_capture(re.source(), haystack@, group as nat) is Some,
        r matches Some(s) ==> regex_capture(re.source(), haystack@, group as nat) == Some(s@),
        r matches Some(s) ==> exists|a: int, b: int|
            0 <= a <= b <= haystack@.len() && s@ == haystack@.subrange(a, b),
{
    re.re.captures(haystack).and_then(|c| c.get(group)).map(|m| m.as_str().to_string())
}

impl CompiledRegex {
    /// Compiles `pattern`; fails exactly when the `regex` crate refuses it.
    pub fn new(pattern: &str) -> (r: Result<CompiledRegex, PatternError>)
        ensures
            r is Ok <==> regex_compiles(pattern@),
            r matches Ok(c) ==> c.source() == pattern@,
    {
        match regex_new(pattern) {
            Ok(c) => Ok(c),
            Err(_) => Err(PatternError),
        }
    }
}

} // verus!
