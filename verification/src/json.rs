//! The serde_json boundary: the one outside call the crate makes, used to
//! deserialize the embedded registry data set.

use vstd::prelude::*;

verus! {

/// What `serde_json::from_str` yields on a given text when asked for a list
/// of string pairs: `Some` with the decoded pairs when the text is a JSON
/// array of two-element string arrays, `None` when parsing fails.
pub uninterp spec fn parsed_pairs(s: Seq<char>) -> Option<Seq<(Seq<char>, Seq<char>)>>;

/// Relies on serde_json::from_str: whether and how a JSON text decodes as a
/// list of string pairs is a function of the text alone.
#[verifier::external_body]
pub(crate) fn parse_pairs(text: &str) -> (r: Option<Vec<(String, String)>>)
    ensures
        r is Some <==> parsed_pairs(text@) is Some,
        r is Some ==> r->0.deep_view() == parsed_pairs(text@)->0,
{
    serde_json::from_str(text).ok()
}

} // verus!
