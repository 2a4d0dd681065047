//! The content scorer.
//!
//! A score is a whole number of half points, so that the halving of a score
//! for link-heavy text stays exact.

use crate::constants::{
    content_indicator_words, content_indicators, navigation_indicator_words,
    navigation_indicators, non_content_patterns, non_content_words,
};
use crate::pattern::{count_matches, found, is_match, match_count};
use crate::text::{
    contained_count, contains, count_words_chars, lemma_contained_count_bound, lowercase,
    str_contained_count, str_contains, str_eq, to_chars, to_lowercase, word_count,
};
use crate::types::optional_text;
use vstd::prelude::*;

verus! {

/// Matches a date such as `January 1, 2024`.
pub const DATE_PATTERN: &'static str =
    "\\b(?:Jan|Feb|Mar|Apr|May|Jun|Jul|Aug|Sep|Oct|Nov|Dec)[a-z]*\\s+\\d{1,2},?\\s+\\d{4}\\b";

/// Matches a byline such as `by Jane Doe`.
pub const AUTHOR_PATTERN: &'static str = "\\b(?:by|written by|author:)\\s+[A-Za-z\\s]+\\b";

/// Matches a paragraph that stands on one line.
pub const PARAGRAPH_PATTERN: &'static str = "<p[^>]*>.*?</p>";

/// Matches a link that stands on one line.
pub const LINK_PATTERN: &'static str = "<a[^>]*>.*?</a>";

/// Matches an image tag.
pub const IMAGE_PATTERN: &'static str = "<img[^>]*>";

/// The number of matches of a pattern in a text; zero for a pattern that is
/// no regular expression.
pub open spec fn occurrences(pattern: Seq<char>, text: Seq<char>) -> nat {
    match match_count(pattern, text) {
        Some(n) => n,
        None => 0,
    }
}

/// Whether a pattern matches in a text; `false` for a pattern that is no
/// regular expression.
pub open spec fn matches(pattern: Seq<char>, text: Seq<char>) -> bool {
    found(pattern, text) == Some(true)
}

/// The half points that words and paragraphs give: two for each word, ten
/// for each paragraph, and half of it all where there is more than one link
/// for every two words.
pub open spec fn density_score(words: nat, paragraphs: nat, links: nat) -> int {
    let whole: int = 2 * (words as int + 5 * (paragraphs as int));
    if words > 0 && 2 * links > words {
        whole / 2
    } else {
        whole
    }
}

/// The score of a text in half points: density, six for each image, twenty
/// for each content word found, forty off for each navigation word, sixty
/// off for each non-content word, ten each for a date and a byline; never
/// below zero.
pub open spec fn text_score(text: Seq<char>) -> int {
    let raw = density_score(
        word_count(text),
        occurrences(PARAGRAPH_PATTERN@, text),
        occurrences(LINK_PATTERN@, text),
    ) + 6 * occurrences(IMAGE_PATTERN@, text) + 20 * contained_count(
        text,
        content_indicator_words(),
    ) - 40 * contained_count(text, navigation_indicator_words()) - 60 * contained_count(
        text,
        non_content_words(),
    ) + (if matches(DATE_PATTERN@, text) {
        10int
    } else {
        0int
    }) + (if matches(AUTHOR_PATTERN@, text) {
        10int
    } else {
        0int
    });
    if raw < 0 {
        0
    } else {
        raw
    }
}

/// The half points of a tag.
pub open spec fn tag_score(tag: Seq<char>) -> int {
    if tag == "article"@ || tag == "main"@ {
        40
    } else if tag == "section"@ {
        20
    } else if tag == "div"@ {
        10
    } else if tag == "nav"@ || tag == "aside"@ || tag == "footer"@ || tag == "header"@ {
        -40
    } else {
        0
    }
}

/// The half points of a `class` attribute: thirty for a content word,
/// thirty off for a navigation word, both in lower case.
pub open spec fn class_score(class: Option<Seq<char>>) -> int {
    match class {
        Some(c) => {
            let lower = lowercase(c);
            (if contains(lower, "content"@) || contains(lower, "article"@) || contains(
                lower,
                "post"@,
            ) || contains(lower, "entry"@) {
                30int
            } else {
                0int
            }) - (if contains(lower, "nav"@) || contains(lower, "menu"@) || contains(
                lower,
                "sidebar"@,
            ) || contains(lower, "comment"@) {
                30int
            } else {
                0int
            })
        },
        None => 0,
    }
}

/// The half points of an `id` attribute: twenty for a content word, twenty
/// off for a navigation word, both in lower case.
pub open spec fn id_score(id: Option<Seq<char>>) -> int {
    match id {
        Some(i) => {
            let lower = lowercase(i);
            (if contains(lower, "content"@) || contains(lower, "main"@) {
                20int
            } else {
                0int
            }) - (if contains(lower, "nav"@) || contains(lower, "sidebar"@) {
                20int
            } else {
                0int
            })
        },
        None => 0,
    }
}

/// The number of matches of a pattern in a text.
fn count_of(pattern: &str, text: &str) -> (r: usize)
    ensures
        r == occurrences(pattern@, text@),
{
    match count_matches(pattern, text) {
        Some(n) => n,
        None => 0,
    }
}

/// Whether a pattern matches in a text.
fn has_match(pattern: &str, text: &str) -> (r: bool)
    ensures
        r == matches(pattern@, text@),
{
    match is_match(pattern, text) {
        Some(b) => b,
        None => false,
    }
}

/// The content scorer.
#[derive(Debug, Clone, Copy)]
pub struct ContentScorer;

/// The score of one element, in half points.
#[derive(Debug, Clone)]
pub struct ContentScore {
    pub score: i64,
    pub element_id: String,
}

impl ContentScorer {
    /// The score of a text or an HTML fragment, in half points.
    pub fn score_text(text: &str) -> (r: i128)
        ensures
            r == text_score(text@),
            r >= 0,
    {
        let words = count_words_chars(&to_chars(text));
        let paragraphs = count_of(PARAGRAPH_PATTERN, text);
        let links = count_of(LINK_PATTERN, text);
        let images = count_of(IMAGE_PATTERN, text);
        let content = str_contained_count(text, &content_indicators());
        let navigation = str_contained_count(text, &navigation_indicators());
        let junk = str_contained_count(text, &non_content_patterns());
        proof {
            lemma_contained_count_bound(text@, content_indicator_words());
            lemma_contained_count_bound(text@, navigation_indicator_words());
            lemma_contained_count_bound(text@, non_content_words());
        }
        let whole: i128 = 2 * (words as i128 + 5 * (paragraphs as i128));
        let mut score: i128 = if words > 0 && 2 * (links as i128) > words as i128 {
            whole / 2
        } else {
            whole
        };
        score = score + 6 * (images as i128) + 20 * (content as i128) - 40 * (navigation as i128)
            - 60 * (junk as i128);
        if has_match(DATE_PATTERN, text) {
            score = score + 10;
        }
        if has_match(AUTHOR_PATTERN, text) {
            score = score + 10;
        }
        if score < 0 {
            0
        } else {
            score
        }
    }

    /// The score of an element by its tag, its `class` and its `id`, in half
    /// points.
    pub fn score_by_attributes(tag: &str, class: Option<&str>, id: Option<&str>) -> (r: i64)
        ensures
            r == tag_score(tag@) + class_score(crate::metadata::optional_str(class)) + id_score(
                crate::metadata::optional_str(id),
            ),
    {
        let mut score: i64 = if str_eq(tag, "article") || str_eq(tag, "main") {
            40
        } else if str_eq(tag, "section") {
            20
        } else if str_eq(tag, "div") {
            10
        } else if str_eq(tag, "nav") || str_eq(tag, "aside") || str_eq(tag, "footer") || str_eq(
            tag,
            "header",
        ) {
            -40
        } else {
            0
        };
        if let Some(c) = class {
            let lower = to_lowercase(c);
            let l = lower.as_str();
            if str_contains(l, "content") || str_contains(l, "article") || str_contains(l, "post")
                || str_contains(l, "entry") {
                score = score + 30;
            }
            if str_contains(l, "nav") || str_contains(l, "menu") || str_contains(l, "sidebar")
                || str_contains(l, "comment") {
                score = score - 30;
            }
        }
        if let Some(i) = id {
            let lower = to_lowercase(i);
            let l = lower.as_str();
            if str_contains(l, "content") || str_contains(l, "main") {
                score = score + 20;
            }
            if str_contains(l, "nav") || str_contains(l, "sidebar") {
                score = score - 20;
            }
        }
        score
    }
}

} // verus!
