//! The extractor for Farcaster mini apps.

use crate::error::TrekError;
use crate::extractor::Extractor;
use crate::json::JsonValue;
use crate::text::{
    contains, find, find_chars, find_chars_from, find_from, from_chars, rfind, rfind_chars,
    slice_chars, squeeze_whitespace, squeeze_whitespace_chars, str_contains, to_chars,
};
use crate::types::{Extracted, ExtractedContent};
use vstd::prelude::*;
use vstd::string::StringExecFns;

verus! {

/// The address is one of a known mini-app host.
pub open spec fn is_mini_app_address(url: Seq<char>) -> bool {
    contains(url, "crowdfund.seedclub.com"@) || contains(url, "yoink.party"@) || contains(
        url,
        "farcaster.xyz"@,
    ) || contains(url, "warpcast.com"@)
}

/// The characters between the `>` that closes the first `<body` tag and the
/// last `</body>`; `None` where one of the two is missing or the closing tag
/// stands before the end of the opening one.
pub open spec fn body_text(html: Seq<char>) -> Option<Seq<char>> {
    match (find(html, "<body"@), rfind(html, "</body>"@)) {
        (Some(start), Some(end)) => {
            let from = match find_from(html, ">"@, start) {
                Some(close) => close + 1,
                None => start + 1,
            };
            if from <= end {
                Some(html.subrange(from, end))
            } else {
                None
            }
        },
        _ => None,
    }
}

/// The words of the body, joined by single spaces; `None` for a document
/// without a body or with an empty one.
pub open spec fn body_words(html: Seq<char>) -> Option<Seq<char>> {
    match body_text(html) {
        Some(body) => if squeeze_whitespace(body).len() > 0 {
            Some(squeeze_whitespace(body))
        } else {
            None
        },
        None => None,
    }
}

/// What the mini-app extractor finds: the words of the body as text, and
/// the same inside a `div` as HTML.
pub open spec fn mini_app_extraction(html: Seq<char>) -> Extracted {
    match body_words(html) {
        Some(words) => Extracted {
            content: Some(words),
            content_html: Some("<div>"@ + words + "</div>"@),
            ..Extracted::empty()
        },
        None => Extracted::empty(),
    }
}

/// The extractor for Farcaster mini apps. Their pages say little; what
/// matters about them stands in the metadata.
#[derive(Debug, Clone, Copy)]
pub struct FarcasterExtractor;

impl Extractor for FarcasterExtractor {
    fn can_extract(&self, url: &str, schema_org_data: &Vec<JsonValue>) -> (r: bool)
        ensures
            r == is_mini_app_address(url@),
    {
        str_contains(url, "crowdfund.seedclub.com") || str_contains(url, "yoink.party")
            || str_contains(url, "farcaster.xyz") || str_contains(url, "warpcast.com")
    }

    fn extract_from_html(&self, html: &str) -> (r: Result<ExtractedContent, TrekError>)
        ensures
            r is Ok,
            r->Ok_0@ == mini_app_extraction(html@),
    {
        let mut content = ExtractedContent::default();
        let v = to_chars(html);
        if let Some(start) = find_chars(&v, &to_chars("<body")) {
            if let Some(end) = rfind_chars(&v, &to_chars("</body>")) {
                let n = v.len();
                proof {
                    reveal_strlit("<body");
                    reveal_strlit(">");
                    crate::text::lemma_find_from(v@, "<body"@, 0);
                    crate::text::lemma_find_from(v@, ">"@, start as int);
                    crate::text::lemma_rfind_below(v@, "</body>"@, v@.len() as int + 1);
                    assert(start + 5 <= n);
                    assert(end <= n);
                }
                let from = match find_chars_from(&v, &to_chars(">"), start) {
                    Some(close) => {
                        assert(close + 1 <= n);
                        close + 1
                    },
                    None => start + 1,
                };
                if from <= end {
                    let words = squeeze_whitespace_chars(&slice_chars(&v, from, end));
                    if words.len() > 0 {
                        let text = from_chars(&words);
                        let wrapped = String::from_str("<div>").concat(text.as_str()).concat(
                            "</div>",
                        );
                        content.content = Some(text);
                        content.content_html = Some(wrapped);
                    }
                }
            }
        }
        Ok(content)
    }

    fn name(&self) -> (r: &'static str)
        ensures
            r@ == "farcaster"@,
    {
        "farcaster"
    }
}

} // verus!
