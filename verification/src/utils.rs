//! Small helpers: the clock, entity decoding, tag stripping and word counts.

use crate::pattern::{replace_all, replaced};
use crate::text::{
    count_words_chars, from_chars, to_chars, trim, trim_chars, word_count,
};
use vstd::prelude::*;

verus! {

/// Matches one HTML tag.
pub const TAG_PATTERN: &'static str = "<[^>]+>";

/// Matches one run of whitespace.
pub const WHITESPACE_PATTERN: &'static str = "\\s+";

/// The milliseconds since the Unix epoch, by the system clock; `u64::MAX`
/// where they do not fit, and 0 for a clock set before the epoch. Nothing is
/// promised of the value.
#[verifier::external_body]
pub fn current_time_ms() -> u64 {
    std::time::SystemTime::now().duration_since(std::time::UNIX_EPOCH).unwrap_or_default().as_millis().try_into().unwrap_or(
        u64::MAX,
    )
}

/// What `html_escape::decode_html_entities` returns for a text.
pub uninterp spec fn entities_decoded(text: Seq<char>) -> Seq<char>;

/// `html_escape::decode_html_entities`: `text` with its character references
/// replaced by the characters they stand for.
#[verifier::external_body]
fn decode_entities(text: &str) -> (r: String)
    ensures
        r@ == entities_decoded(text@),
{
    html_escape::decode_html_entities(text).into_owned()
}

/// `text` with its HTML character references decoded.
pub fn decode_html_entities(text: &str) -> (r: String)
    ensures
        r@ == entities_decoded(text@),
{
    decode_entities(text)
}

/// `text` with every match of `pattern` replaced by `replacement`; `text`
/// itself where the pattern is not a regular expression.
pub open spec fn substituted(pattern: Seq<char>, text: Seq<char>, replacement: Seq<char>) -> Seq<
    char,
> {
    match replaced(pattern, text, replacement) {
        Some(t) => t,
        None => text,
    }
}

/// `text` with every match of `pattern` replaced by `replacement`.
pub fn substitute(pattern: &str, text: &str, replacement: &str) -> (r: String)
    ensures
        r@ == substituted(pattern@, text@, replacement@),
{
    match replace_all(pattern, text, replacement) {
        Some(t) => t,
        None => text.to_owned(),
    }
}

/// The text of an HTML fragment: every tag replaced by a space, every run of
/// whitespace by one space, and the ends trimmed.
pub open spec fn stripped_text(html: Seq<char>) -> Seq<char> {
    trim(substituted(WHITESPACE_PATTERN@, substituted(TAG_PATTERN@, html, " "@), " "@))
}

/// The text of an HTML fragment without its tags.
pub fn strip_html_tags(html: &str) -> (r: String)
    ensures
        r@ == stripped_text(html@),
{
    let without_tags = substitute(TAG_PATTERN, html, " ");
    let normalized = substitute(WHITESPACE_PATTERN, without_tags.as_str(), " ");
    from_chars(&trim_chars(&to_chars(normalized.as_str())))
}

/// The number of words in the text of an HTML fragment.
pub fn count_words(html: &str) -> (r: usize)
    ensures
        r == word_count(stripped_text(html@)),
{
    let text = strip_html_tags(html);
    count_words_chars(&to_chars(text.as_str()))
}

} // verus!
