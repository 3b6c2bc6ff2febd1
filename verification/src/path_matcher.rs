//! Comparison of share paths.
//!
//! Two paths name the same share when they are equal once both are written
//! in lower case. Nothing else is normalised: separators, a trailing
//! separator and drive letters are compared as they stand.

use vstd::prelude::*;

verus! {

/// The lower-case form of a string, as `str::to_lowercase` computes it.
pub uninterp spec fn lowercase_of(text: Seq<char>) -> Seq<char>;

/// `str::to_lowercase` of the standard library. Trusted: its result depends
/// on the characters of `text` alone, and `lowercase_of` is the name of that
/// result.
pub assume_specification[ str::to_lowercase ](text: &str) -> (lowered: String)
    ensures
        lowered@ == lowercase_of(text@),
;

/// Whether two paths are equal up to the case of their letters.
pub open spec fn path_matches(candidate: Seq<char>, recorded: Seq<char>) -> bool {
    lowercase_of(candidate) == lowercase_of(recorded)
}

/// Compares a wanted path with a recorded one, ignoring case.
pub fn matches(candidate: &str, recorded: &str) -> (same: bool)
    ensures
        same == path_matches(candidate@, recorded@),
{
    let wanted = candidate.to_lowercase();
    let found = recorded.to_lowercase();
    wanted == found
}

/// Matching is an equivalence: every path matches itself, a match holds in
/// both directions, and two paths that match a third match each other.
pub proof fn law_matching_is_an_equivalence(first: Seq<char>, second: Seq<char>, third: Seq<char>)
    ensures
        path_matches(first, first),
        path_matches(first, second) == path_matches(second, first),
        path_matches(first, second) && path_matches(second, third) ==> path_matches(first, third),
{
}

} // verus!
