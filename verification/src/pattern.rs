//! Regular-expression matching, delegated to the `regex` crate.

use regex::Regex;
use vstd::prelude::*;

verus! {

/// The text of each capture group of one match; a group that took no part
/// in the match is `None`. Group 0 is the whole match.
pub type Groups = Seq<Option<Seq<char>>>;

/// What the `regex` crate finds when `pattern` is compiled with its default
/// options and searched for in `haystack`: the groups of the leftmost
/// match, or `None` when there is no match or the crate rejects the pattern.
pub uninterp spec fn regex_captures(pattern: Seq<char>, haystack: Seq<char>) -> Option<
    Seq<Option<Seq<char>>>,
>;

/// The texts held by the groups of a match.
pub open spec fn groups_view(groups: &Vec<Option<String>>) -> Groups {
    Seq::new(
        groups@.len(),
        |i: int|
            match groups@[i] {
                Some(text) => Some(text@),
                None => None,
            },
    )
}

/// The texts held by an optional match.
pub open spec fn match_view(found: &Option<Vec<Option<String>>>) -> Option<Groups> {
    match found {
        Some(groups) => Some(groups_view(groups)),
        None => None,
    }
}

/// `part` stands in `whole`, in one piece.
pub open spec fn is_slice_of(part: Seq<char>, whole: Seq<char>) -> bool {
    exists|from: int, to: int|
        0 <= from <= to <= whole.len() && #[trigger] whole.subrange(from, to) == part
}

/// What holds of the groups of any match in `haystack`: the whole match
/// (group 0) is there, and the text of every group that took part stands
/// in the haystack.
pub open spec fn groups_stand_in(groups: Groups, haystack: Seq<char>) -> bool {
    &&& groups.len() > 0
    &&& groups[0] is Some
    &&& forall|i: int|
        0 <= i < groups.len() ==> (#[trigger] groups[i] matches Some(text) ==> is_slice_of(
            text,
            haystack,
        ))
}

/// Calls `regex::Regex::new` on `pattern` and `Regex::captures` on
/// `haystack`, and copies out the text of every group that
/// `Captures::iter` yields.
///
/// Nothing is proved of the matching itself. The contract gives the
/// outcome its name, `regex_captures`, which rests on the crate's search
/// being a function of the pattern text and the haystack. Besides, it
/// states what the crate documents of every match: group 0 is present, and
/// `Match::as_str` hands out a substring of the haystack.
#[verifier::external_body]
pub(crate) fn captures(pattern: &str, haystack: &str) -> (found: Option<Vec<Option<String>>>)
    ensures
        match_view(&found) == regex_captures(pattern@, haystack@),
        found matches Some(groups) ==> groups_stand_in(groups_view(&groups), haystack@),
{
    let compiled = Regex::new(pattern).ok()?;
    let found = compiled.captures(haystack)?;
    Some(found.iter().map(|group| group.map(|m| m.as_str().to_owned())).collect())
}

} // verus!
