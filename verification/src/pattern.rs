//! Regular-expression search, provided by the `regex` crate.
//!
//! The search is not proved: the items below state what the library takes on
//! trust from the `regex` crate.

use vstd::prelude::*;

verus! {

/// Whether `piece` stands in `text` as one unbroken run of characters.
pub open spec fn is_piece_of(piece: Seq<char>, text: Seq<char>) -> bool {
    exists|from: int, to: int| 0 <= from <= to <= text.len() && piece == text.subrange(from, to)
}

/// The error of a failed compilation, `regex::Error`. Opaque to the verifier.
#[verifier::external_type_specification]
#[verifier::external_body]
pub struct ExRegexError(regex::Error);

/// Whether `regex::Regex::new` accepts `pattern`.
pub uninterp spec fn pattern_compiles(pattern: Seq<char>) -> bool;

/// The text of the match that `regex::Regex::find` returns when the
/// expression compiled from `pattern` searches `haystack`: the leftmost
/// match, or `None` where the expression matches nowhere.
pub uninterp spec fn first_match(pattern: Seq<char>, haystack: Seq<char>) -> Option<Seq<char>>;

/// Compiles `pattern` with `regex::Regex::new`, searches `haystack` with
/// `regex::Regex::find` and takes the matched text with
/// `regex::Match::as_str`.
///
/// Trusted: compilation fails exactly on the patterns that
/// `pattern_compiles` rejects; what is found is a function of the pattern
/// and of the haystack alone; and a match is a piece of the haystack.
#[verifier::external_body]
pub(crate) fn find_first<'h>(pattern: &str, haystack: &'h str) -> (res: Result<
    Option<&'h str>,
    regex::Error,
>)
    ensures
        res is Ok <==> pattern_compiles(pattern@),
        res matches Ok(found) ==> match found {
            Some(link) => first_match(pattern@, haystack@) == Some(link@) && is_piece_of(
                link@,
                haystack@,
            ),
            None => first_match(pattern@, haystack@) is None,
        },
{
    let re = regex::Regex::new(pattern)?;
    match re.find(haystack) {
        Some(found) => Ok(Some(found.as_str())),
        None => Ok(None),
    }
}

} // verus!
