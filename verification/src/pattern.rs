//! Regular expressions, by way of the `regex` crate.
use vstd::prelude::*;

verus! {

/// The matches of the regular expression `pattern` in `haystack`, as the
/// `regex` crate finds them: `None` where the pattern does not compile;
/// otherwise the successive matches that do not overlap, from left to right,
/// and for each match its capture groups in the order of their opening
/// parentheses, group 0 being the whole match. A group that took no part in
/// the match is `None`.
pub uninterp spec fn pattern_captures(pattern: Seq<char>, haystack: Seq<char>) -> Option<
    Seq<Seq<Option<Seq<char>>>>,
>;

/// The text of a capture group.
pub open spec fn group_text(group: Option<String>) -> Option<Seq<char>> {
    match group {
        Some(text) => Some(text@),
        None => None,
    }
}

/// The texts of the capture groups of one match.
pub open spec fn match_texts(groups: Vec<Option<String>>) -> Seq<Option<Seq<char>>> {
    Seq::new(groups@.len(), |i: int| group_text(groups@[i]))
}

/// The texts of the capture groups of a list of matches.
pub open spec fn capture_texts(found: Seq<Vec<Option<String>>>) -> Seq<Seq<Option<Seq<char>>>> {
    Seq::new(found.len(), |i: int| match_texts(found[i]))
}

/// The texts of what a search gave.
pub open spec fn found_texts(found: Option<Vec<Vec<Option<String>>>>) -> Option<
    Seq<Seq<Option<Seq<char>>>>,
> {
    match found {
        Some(list) => Some(capture_texts(list@)),
        None => None,
    }
}

/// Compiles `pattern` with `regex::Regex::new` and walks `haystack` with
/// `Regex::captures_iter`, copying the text of every capture group of every
/// match. The result is what the `regex` crate finds for these two texts and
/// depends on nothing else; a pattern that the crate refuses gives `None`.
#[verifier::external_body]
pub(crate) fn captures_of(pattern: &str, haystack: &str) -> (r: Option<Vec<Vec<Option<String>>>>)
    ensures
        found_texts(r) == pattern_captures(pattern@, haystack@),
{
    let re = regex::Regex::new(pattern).ok()?;
    Some(
        re.captures_iter(haystack).map(
            |c| c.iter().map(|g| g.map(|m| m.as_str().to_string())).collect(),
        ).collect(),
    )
}

/// Capture group `i` of a match, if the match has such a group and it took
/// part.
pub open spec fn group_at(groups: Seq<Option<Seq<char>>>, i: int) -> Option<Seq<char>> {
    if 0 <= i < groups.len() {
        groups[i]
    } else {
        None
    }
}

/// Capture group `i` of a match.
pub fn group(groups: &Vec<Option<String>>, i: usize) -> (r: Option<&String>)
    ensures
        match r {
            Some(text) => group_at(match_texts(*groups), i as int) == Some(text@),
            None => group_at(match_texts(*groups), i as int) is None,
        },
{
    if i < groups.len() {
        groups[i].as_ref()
    } else {
        None
    }
}

} // verus!
