//! Regular expressions over brick names.
//!
//! Matching is left to the `regex` crate. What it finds has a name here, so
//! that the rules built on it can say exactly what they do with it.

use vstd::prelude::*;

verus! {

/// What a search finds: one entry per capture group of the pattern, the
/// whole match first. A group that took no part in the match is `None`.
pub type Groups = Vec<Option<String>>;

/// What `regex::Regex::captures` finds when the regular expression written
/// as `pattern` is searched for in `text`: `None` where there is no match,
/// or where `pattern` is not a regular expression that `regex::Regex::new`
/// accepts, and otherwise the text of every capture group, in the order of
/// their opening parentheses.
pub uninterp spec fn captures(pattern: Seq<char>, text: Seq<char>) -> Option<Seq<Option<Seq<char>>>>;

/// Compiles `pattern` with `regex::Regex::new` and searches `text` with
/// `regex::Regex::captures`. Not proved: that the groups handed back are
/// those that the two calls give for these two strings, which is all that
/// the contract says.
#[verifier::external_body]
pub(crate) fn find_captures(pattern: &str, text: &str) -> (groups: Option<Groups>)
    ensures
        groups.deep_view() == captures(pattern@, text@),
{
    let regex = regex::Regex::new(pattern).ok()?;
    let found = regex.captures(text)?;
    Some(found.iter().map(|group| group.map(|m| m.as_str().to_string())).collect())
}

/// The text of group `i`, if the search has such a group and it took part.
pub open spec fn group_at(groups: Seq<Option<Seq<char>>>, i: int) -> Option<Seq<char>> {
    if 0 <= i < groups.len() {
        groups[i]
    } else {
        None
    }
}

/// Whether group `i` took part in the match.
pub open spec fn present(groups: Seq<Option<Seq<char>>>, i: int) -> bool {
    group_at(groups, i) is Some
}

/// The text of group `i`.
pub fn group<'a>(groups: &'a Groups, i: usize) -> (text: Option<&'a str>)
    ensures
        text.deep_view() == group_at(groups.deep_view(), i as int),
{
    if i < groups.len() {
        match &groups[i] {
            Some(text) => Some(text.as_str()),
            None => None,
        }
    } else {
        None
    }
}

/// Whether group `i` took part in the match.
pub fn has_group(groups: &Groups, i: usize) -> (found: bool)
    ensures
        found == present(groups.deep_view(), i as int),
{
    group(groups, i).is_some()
}

} // verus!
