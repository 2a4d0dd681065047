//! The fixed word lists that the removal rules and the scorer go by.

use crate::text::texts;
use vstd::prelude::*;

verus! {

/// The attributes that are searched for noise patterns.
pub open spec fn test_attribute_names() -> Seq<Seq<char>> {
    seq![
        "class"@,
        "id"@,
        "data-test"@,
        "data-testid"@,
        "data-test-id"@,
        "data-qa"@,
        "data-cy"@,
    ]
}

/// The attributes that are searched for noise patterns.
pub fn test_attributes() -> (r: Vec<&'static str>)
    ensures
        texts(r@) == test_attribute_names(),
{
    let r = vec!["class", "id", "data-test", "data-testid", "data-test-id", "data-qa", "data-cy"];
    assert(texts(r@) =~= test_attribute_names());
    r
}

/// The noise patterns: an element goes when one of its test attributes, in
/// lower case, contains one of them.
pub open spec fn partial_selector_patterns() -> Seq<Seq<char>> {
    seq![
        "ad-container"@,
        "ad-wrapper"@,
        "ad-banner"@,
        "ad-slot"@,
        "advert"@,
        "sponsor"@,
        "promo"@,
        "social-share"@,
        "share-button"@,
        "sharing"@,
        "related-"@,
        "comment"@,
        "newsletter"@,
        "subscribe"@,
        "cookie"@,
        "popup"@,
        "breadcrumb"@,
        "widget"@,
    ]
}

/// The noise patterns.
pub fn partial_selectors() -> (r: Vec<&'static str>)
    ensures
        texts(r@) == partial_selector_patterns(),
{
    let r = vec![
        "ad-container",
        "ad-wrapper",
        "ad-banner",
        "ad-slot",
        "advert",
        "sponsor",
        "promo",
        "social-share",
        "share-button",
        "sharing",
        "related-",
        "comment",
        "newsletter",
        "subscribe",
        "cookie",
        "popup",
        "breadcrumb",
        "widget",
    ];
    assert(texts(r@) =~= partial_selector_patterns());
    r
}

/// Words that speak for content.
pub open spec fn content_indicator_words() -> Seq<Seq<char>> {
    seq!["article"@, "content"@, "post"@, "story"@, "entry"@, "main"@]
}

/// Words that speak for content.
pub fn content_indicators() -> (r: Vec<&'static str>)
    ensures
        texts(r@) == content_indicator_words(),
{
    let r = vec!["article", "content", "post", "story", "entry", "main"];
    assert(texts(r@) =~= content_indicator_words());
    r
}

/// Words that speak for navigation.
pub open spec fn navigation_indicator_words() -> Seq<Seq<char>> {
    seq!["menu"@, "navigation"@, "navbar"@, "sidebar"@, "breadcrumb"@, "footer"@]
}

/// Words that speak for navigation.
pub fn navigation_indicators() -> (r: Vec<&'static str>)
    ensures
        texts(r@) == navigation_indicator_words(),
{
    let r = vec!["menu", "navigation", "navbar", "sidebar", "breadcrumb", "footer"];
    assert(texts(r@) =~= navigation_indicator_words());
    r
}

/// Words that speak against content.
pub open spec fn non_content_words() -> Seq<Seq<char>> {
    seq![
        "advertisement"@,
        "sponsored"@,
        "cookie"@,
        "subscribe"@,
        "newsletter"@,
        "sign up"@,
        "log in"@,
        "copyright"@,
    ]
}

/// Words that speak against content.
pub fn non_content_patterns() -> (r: Vec<&'static str>)
    ensures
        texts(r@) == non_content_words(),
{
    let r = vec![
        "advertisement",
        "sponsored",
        "cookie",
        "subscribe",
        "newsletter",
        "sign up",
        "log in",
        "copyright",
    ];
    assert(texts(r@) =~= non_content_words());
    r
}

} // verus!
