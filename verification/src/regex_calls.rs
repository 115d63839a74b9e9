//! The calls into the `regex` crate, each behind a trusted item.

use vstd::prelude::*;

verus! {

/// Whether `regex::Regex::new` accepts the pattern.
pub uninterp spec fn regex_accepts(pattern: Seq<char>) -> bool;

/// The message that the error of `regex::Regex::new` on this pattern
/// displays (`to_string`), where the pattern is refused.
pub uninterp spec fn regex_error_text(pattern: Seq<char>) -> Seq<char>;

/// Whether `regex::RegexSet::new` accepts the list of patterns.
pub uninterp spec fn regex_set_accepts(patterns: Seq<Seq<char>>) -> bool;

/// The indices of the patterns of the set that match the text, as
/// `regex::RegexSet::matches` reports them.
pub uninterp spec fn regex_set_matches(patterns: Seq<Seq<char>>, text: Seq<char>) -> Seq<usize>;

/// Calls `regex::Regex::new` on the pattern and reports the error's message,
/// if any.
///
/// Trusted claims: the result is `None` exactly when the pattern is accepted
/// (`regex_accepts`), and the message is `regex_error_text` of the pattern.
#[verifier::external_body]
pub(crate) fn regex_error(pattern: &str) -> (res: Option<String>)
    ensures
        res is None <==> regex_accepts(pattern@),
        res matches Some(m) ==> m@ == regex_error_text(pattern@),
{
    match regex::Regex::new(pattern) {
        Ok(_) => None,
        Err(e) => Some(e.to_string()),
    }
}

/// Calls `regex::RegexSet::new` on the patterns and reports whether it
/// succeeded.
///
/// Trusted claim: the result is `regex_set_accepts` of the patterns.
#[verifier::external_body]
pub(crate) fn regex_set_compiles(patterns: &Vec<String>) -> (res: bool)
    ensures
        res == regex_set_accepts(patterns@.map_values(|p: String| p@)),
{
    regex::RegexSet::new(patterns).is_ok()
}

/// Builds the `regex::RegexSet` of the patterns (which it accepts) and calls
/// `matches` on the text, collecting the indices of the matching patterns.
///
/// Trusted claims: the result is `regex_set_matches` of the patterns and the
/// text; and, as the crate documents, the indices come in ascending order and
/// each one is the position of a pattern of the set.
#[verifier::external_body]
pub(crate) fn regex_set_match_indices(patterns: &Vec<String>, text: &str) -> (res: Vec<usize>)
    requires
        regex_set_accepts(patterns@.map_values(|p: String| p@)),
    ensures
        res@ == regex_set_matches(patterns@.map_values(|p: String| p@), text@),
        forall|i: int| 0 <= i < res@.len() ==> #[trigger] res@[i] < patterns@.len(),
        forall|i: int, j: int| 0 <= i < j < res@.len() ==> #[trigger] res@[i] < #[trigger] res@[j],
{
    regex::RegexSet::new(patterns).unwrap().matches(text).into_iter().collect()
}

} // verus!
