use vstd::prelude::*;

use crate::text::str_equal;

verus! {

/// Whether `glob_match::glob_match(pattern, path)` accepts `path`.
pub uninterp spec fn glob_matches(pattern: Seq<char>, path: Seq<char>) -> bool;

/// Calls `glob_match::glob_match`. Claimed: the answer is the named one for
/// these two strings. The crate guards its fixed-size brace stack and its
/// indexing, so the call does not panic; that is not a clause here.
#[verifier::external_body]
fn glob_match_str(pattern: &str, path: &str) -> (r: bool)
    ensures
        r == glob_matches(pattern@, path@),
{
    glob_match::glob_match(pattern, path)
}

/// A domain matches a pattern when it equals the pattern or the glob accepts it.
pub open spec fn domain_matches(pattern: Seq<char>, domain: Seq<char>) -> bool {
    domain == pattern || glob_matches(pattern, domain)
}

/// Some pattern of the list matches the domain.
pub open spec fn any_pattern_matches(patterns: Seq<String>, domain: Seq<char>) -> bool {
    exists|i: int| 0 <= i < patterns.len() && domain_matches(#[trigger] patterns[i]@, domain)
}

/// Checks if a domain matches a pattern (exact match or glob).
pub fn matches_domain(pattern: &str, domain: &str) -> (r: bool)
    ensures
        r == domain_matches(pattern@, domain@),
{
    if str_equal(domain, pattern) {
        return true;
    }
    glob_match_str(pattern, domain)
}

/// Whether some pattern of the list matches the domain.
pub fn any_matches(patterns: &[String], domain: &str) -> (r: bool)
    ensures
        r == any_pattern_matches(patterns@, domain@),
{
    let n = patterns.len();
    let mut i: usize = 0;
    while i < n
        invariant
            n == patterns@.len(),
            i <= n,
            forall|j: int| 0 <= j < i ==> !domain_matches(#[trigger] patterns@[j]@, domain@),
        decreases n - i,
    {
        if matches_domain(patterns[i].as_str(), domain) {
            return true;
        }
        i = i + 1;
    }
    false
}

} // verus!
