//! Texts that match a regular expression.

use vstd::prelude::*;

use crate::render::text_view;

verus! {

/// What `regex::Regex::captures` finds of `text` for the capture group
/// `group` of the expression `pattern`: nothing where the expression is not
/// well formed, does not match, or matches without that group.
pub uninterp spec fn first_capture(pattern: Seq<char>, group: nat, text: Seq<char>) -> Option<
    Seq<char>,
>;

/// What `regex::Regex::captures_iter` finds of `text` for the capture group
/// `group` of the expression `pattern`, match by match: nothing for a match
/// without that group, and no match where the expression is not well formed.
pub uninterp spec fn all_captures(pattern: Seq<char>, group: nat, text: Seq<char>) -> Seq<
    Option<Seq<char>>,
>;

/// The views of the texts in `found`.
pub open spec fn found_views(found: Seq<Option<String>>) -> Seq<Option<Seq<char>>> {
    found.map_values(|text: Option<String>| text_view(text))
}

/// Compiles `pattern` with `regex::Regex::new`, searches `text` for its
/// first match with `regex::Regex::captures`, and takes what the capture
/// group `group` has matched. What is found depends on the three arguments
/// alone.
#[verifier::external_body]
pub(crate) fn capture(pattern: &str, group: usize, text: &str) -> (found: Option<String>)
    ensures
        text_view(found) == first_capture(pattern@, group as nat, text@),
{
    let regex = regex::Regex::new(pattern).ok()?;
    let found = regex.captures(text)?.get(group)?;
    Some(found.as_str().to_owned())
}

/// Compiles `pattern` with `regex::Regex::new`, goes through the matches in
/// `text` with `regex::Regex::captures_iter`, and takes of each what the
/// capture group `group` has matched. What is found depends on the three
/// arguments alone.
#[verifier::external_body]
pub(crate) fn captures_all(pattern: &str, group: usize, text: &str) -> (found: Vec<Option<String>>)
    ensures
        found_views(found@) == all_captures(pattern@, group as nat, text@),
{
    match regex::Regex::new(pattern) {
        Ok(regex) => regex.captures_iter(text).map(
            |found| found.get(group).map(|part| part.as_str().to_owned()),
        ).collect(),
        Err(_) => Vec::new(),
    }
}

} // verus!
