//! Two questions about strings that the standard library answers.

use vstd::prelude::*;

verus! {

/// `text` without every leading repetition of `pattern`.
pub open spec fn without_leading(text: Seq<char>, pattern: Seq<char>) -> Seq<char>
    decreases text.len(),
{
    if pattern.len() > 0 && pattern.is_prefix_of(text) {
        without_leading(text.skip(pattern.len() as int), pattern)
    } else {
        text
    }
}

/// What is left has lost nothing but leading repetitions of the pattern:
/// it is the end of the text, it does not start with the pattern, and it is
/// the whole text where that did not start with the pattern either.
pub proof fn lemma_without_leading(text: Seq<char>, pattern: Seq<char>)
    requires
        pattern.len() > 0,
    ensures
        without_leading(text, pattern).is_suffix_of(text),
        !pattern.is_prefix_of(without_leading(text, pattern)),
        !pattern.is_prefix_of(text) ==> without_leading(text, pattern) == text,
    decreases text.len(),
{
    if pattern.is_prefix_of(text) {
        lemma_without_leading(text.skip(pattern.len() as int), pattern);
    }
}

/// Calls `str::eq`.
///
/// Trusted: two strings are equal exactly when they hold the same
/// characters in the same order.
#[verifier::external_body]
pub(crate) fn same_text(left: &str, right: &str) -> (same: bool)
    ensures
        same == (left@ == right@),
{
    left == right
}

/// Calls `str::trim_start_matches` with a string pattern.
///
/// Trusted: every leading repetition of the pattern is removed and the rest
/// is returned unchanged.
#[verifier::external_body]
pub(crate) fn trim_start_matches(text: &str, pattern: &str) -> (rest: String)
    requires
        pattern@.len() > 0,
    ensures
        rest@ == without_leading(text@, pattern@),
{
    text.trim_start_matches(pattern).to_owned()
}

} // verus!
