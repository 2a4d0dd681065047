//! Regular expressions, as the `regex` crate matches them.
//!
//! The crate decides what a pattern matches. Each function here names its
//! answer as a function of the pattern and the text, and says nothing more
//! about it; a pattern that the crate does not accept has no answer.

use vstd::prelude::*;

verus! {

/// What `Regex::replace_all` returns for a pattern, a text and a
/// replacement; `None` where `Regex::new` rejects the pattern.
pub uninterp spec fn replaced(pattern: Seq<char>, text: Seq<char>, replacement: Seq<char>) -> Option<
    Seq<char>,
>;

/// What `Regex::is_match` returns for a pattern and a text; `None` where
/// `Regex::new` rejects the pattern.
pub uninterp spec fn found(pattern: Seq<char>, text: Seq<char>) -> Option<bool>;

/// The number of matches that `Regex::find_iter` yields for a pattern and a
/// text; `None` where `Regex::new` rejects the pattern.
pub uninterp spec fn match_count(pattern: Seq<char>, text: Seq<char>) -> Option<nat>;

/// The text of capture group `group` in the first match that
/// `Regex::captures` finds; `None` where `Regex::new` rejects the pattern,
/// where nothing matches, and where the group took no part in the match.
pub uninterp spec fn captured(pattern: Seq<char>, text: Seq<char>, group: nat) -> Option<Seq<char>>;

/// `Regex::new`, then `Regex::replace_all`: `text` with every match of
/// `pattern` replaced, or `None` where the pattern is rejected.
#[verifier::external_body]
pub(crate) fn replace_all(pattern: &str, text: &str, replacement: &str) -> (r: Option<String>)
    ensures
        crate::types::optional_text(r) == replaced(pattern@, text@, replacement@),
{
    let re = regex::Regex::new(pattern).ok()?;
    Some(re.replace_all(text, replacement).into_owned())
}

/// `Regex::new`, then `Regex::is_match`: whether `pattern` matches somewhere
/// in `text`, or `None` where the pattern is rejected.
#[verifier::external_body]
pub(crate) fn is_match(pattern: &str, text: &str) -> (r: Option<bool>)
    ensures
        r == found(pattern@, text@),
{
    let re = regex::Regex::new(pattern).ok()?;
    Some(re.is_match(text))
}

/// `Regex::new`, then `Regex::find_iter`: how many matches of `pattern` the
/// iterator yields on `text`, or `None` where the pattern is rejected.
#[verifier::external_body]
pub(crate) fn count_matches(pattern: &str, text: &str) -> (r: Option<usize>)
    ensures
        r is Some <==> match_count(pattern@, text@) is Some,
        r is Some ==> r->0 == match_count(pattern@, text@)->0,
{
    let re = regex::Regex::new(pattern).ok()?;
    Some(re.find_iter(text).count())
}

/// `Regex::new`, then `Regex::captures`: the text of group `group` in the
/// first match of `pattern` in `text`.
#[verifier::external_body]
pub(crate) fn first_capture(pattern: &str, text: &str, group: usize) -> (r: Option<String>)
    ensures
        crate::types::optional_text(r) == captured(pattern@, text@, group as nat),
{
    let re = regex::Regex::new(pattern).ok()?;
    let captures = re.captures(text)?;
    Some(captures.get(group)?.as_str().to_string())
}

} // verus!
