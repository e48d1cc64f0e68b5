use vstd::prelude::*;

use crate::text::strs;

verus! {

/// What `serde_json::from_str::<Vec<String>>` makes of a text: the list of
/// strings it holds, or nothing when it is no JSON array of strings.
pub uninterp spec fn json_string_list(text: Seq<char>) -> Option<Seq<Seq<char>>>;

/// The text that `serde_json::to_string` writes for a list of strings.
pub uninterp spec fn json_of_string_list(items: Seq<Seq<char>>) -> Seq<char>;

/// Parses a JSON array of strings with `serde_json::from_str::<Vec<String>>`.
/// Claimed: the result is the named parse of the text, `None` where serde_json
/// reports an error.
#[verifier::external_body]
pub(crate) fn parse_string_list(text: &str) -> (r: Option<Vec<String>>)
    ensures
        match r {
            Some(v) => json_string_list(text@) == Some(strs(v@)),
            None => json_string_list(text@) is None,
        },
{
    serde_json::from_str::<Vec<String>>(text).ok()
}

/// Writes a list of strings as a JSON array with `serde_json::to_string`.
/// Claimed: the result is the named encoding of the list, and serde_json reads
/// that text back as the same list. serde_json's serializer writes a list of
/// strings into an in-memory buffer, which cannot fail, so the `unwrap` in the
/// body never panics.
#[verifier::external_body]
pub(crate) fn encode_string_list(items: &[String]) -> (r: String)
    ensures
        r@ == json_of_string_list(strs(items@)),
        json_string_list(r@) == Some(strs(items@)),
{
    serde_json::to_string(items).unwrap()
}

} // verus!
