use trek_rs::error::TrekError;
use trek_rs::standardize::{standardize_content, standardize_spaces};
use trek_rs::trek::{body_of, extract_generic, first_image_from_events, strip_clutter};
use trek_rs::types::{RemovalOptions, TrekMetadata};
use trek_rs::utils::count_words;
use trek_rs::{Trek, TrekOptions};

#[test]
fn test_standardize_spaces_is_idempotent() {
    let inputs = [
        "",
        "   ",
        "\n\n\n",
        "  a   b  \n\n\n\n  c \t \n d\r\n\r\n e\u{00A0} \n\n",
        " \n x \n \n \n y \n ",
        "a\u{2028}b  c\n\u{3000}\n\u{3000}\nlast  ",
        "<p>  Multiple   spaces  </p>  ",
    ];
    for input in inputs {
        let once = standardize_spaces(input);
        let twice = standardize_spaces(&once);
        assert_eq!(once, twice);
    }
}

#[test]
fn test_standardize_spaces_edges() {
    assert_eq!(standardize_spaces(""), "");
    assert_eq!(standardize_spaces(" \n \n "), "");
    assert_eq!(standardize_spaces("a\r\nb"), "a\nb");
    assert_eq!(standardize_spaces("a \u{00A0}\n\n\n\u{00A0} b"), "a\n\nb");
    assert_eq!(standardize_spaces("a\t\tb"), "a\t\tb");
}

#[test]
fn test_standardize_content_is_idempotent_on_plain_fragments() {
    let inputs = [
        "<div>\n  <div>  <h1>Title</h1>\n\n\n <p></p> </div>\n <!-- c --> <p>Text   here</p>\n</div>",
        "<article class=\"content\"><p>One</p>\n\n<p>Two</p></article>",
    ];
    for input in inputs {
        let once = standardize_content(input, "Title", false);
        let twice = standardize_content(&once, "Title", false);
        assert_eq!(once, twice);
    }
    let once = standardize_content(inputs[1], "Title", true);
    assert_eq!(standardize_content(&once, "Title", true), once);
}

#[test]
fn test_debug_mode_leaves_the_space_around_a_removed_comment() {
    let once = standardize_content("a <!-- c --> b", "", true);
    assert_eq!(once, "a  b");
    assert_eq!(standardize_content(&once, "", true), "a b");
    assert_eq!(standardize_content("a <!-- c --> b", "", false), "a b");
}

#[test]
fn test_a_comment_can_form_from_what_is_left_of_another() {
    let once = standardize_content("<!-<!-- x -->- y -->", "", false);
    assert_eq!(once, "<!-- y -->");
    assert_eq!(standardize_content(&once, "", false), "");
}

#[test]
fn test_standardize_content_debug_keeps_elements() {
    let html = "<div>  <p></p> <!-- c --><span>x</span></div>";
    assert_eq!(standardize_content(html, "", true), "<div> <p></p> <span>x</span></div>");
    assert_eq!(standardize_content(html, "", false), "<span>x</span>");
}

#[test]
fn test_three_wrappers_around_a_heading() {
    let html = "<div><div><div><h1>Heading stays</h1></div></div></div>";
    let result = standardize_content(html, "", false);
    assert_eq!(result.matches("<div").count(), 0);
    assert!(result.contains("<h1>Heading stays</h1>"));
}

#[test]
fn test_body_of() {
    assert_eq!(body_of("<html><body class=\"x\">\n  <p>a</p>\n</body></html>"), "<p>a</p>");
    assert_eq!(body_of("\n\n<p>no body</p>\n"), "<p>no body</p>\n");
    assert_eq!(body_of("<body><p>never closed</p>"), "<body><p>never closed</p>");
    assert_eq!(body_of("</body>\n<body>"), "</body>\n<body>");
    assert_eq!(body_of("<body></body>"), "");
    assert_eq!(body_of("<body>a</body> b </body>"), "a</body> b");
}

#[test]
fn test_strip_clutter_tiers() {
    let html = r#"<nav>n</nav><div class="sidebar x">s</div><div id="Ad-Container">a</div><p>keep</p>"#;
    let both = RemovalOptions { remove_exact_selectors: true, remove_partial_selectors: true };
    let exact = RemovalOptions { remove_exact_selectors: true, remove_partial_selectors: false };
    let partial = RemovalOptions { remove_exact_selectors: false, remove_partial_selectors: true };
    let none = RemovalOptions { remove_exact_selectors: false, remove_partial_selectors: false };
    assert_eq!(strip_clutter(html, both).unwrap(), "<p>keep</p>");
    assert_eq!(strip_clutter(html, exact).unwrap(), r#"<div id="Ad-Container">a</div><p>keep</p>"#);
    assert_eq!(
        strip_clutter(html, partial).unwrap(),
        r#"<nav>n</nav><div class="sidebar x">s</div><p>keep</p>"#
    );
    assert_eq!(strip_clutter(html, none).unwrap(), html);
}

#[test]
fn test_strip_clutter_takes_descendants_along() {
    let html = "<div class=\"navigation\">\n<p>inside</p>\n<span>x</span>\n</div><p>after</p>";
    let both = RemovalOptions { remove_exact_selectors: true, remove_partial_selectors: true };
    assert_eq!(strip_clutter(html, both).unwrap(), "<p>after</p>");
    let html = r#"<div class="navigations">kept: the class is another word</div>"#;
    assert_eq!(strip_clutter(html, both).unwrap(), html);
}

#[test]
fn test_strip_clutter_fails_where_the_engine_does() {
    let html = r#"<select><xmp><script>"use strict";</script></select>"#;
    let both = RemovalOptions { remove_exact_selectors: true, remove_partial_selectors: true };
    assert!(matches!(strip_clutter(html, both), Err(TrekError::HtmlParse(_))));
}

#[test]
fn test_retry_never_loses_words() {
    let html = r#"<html><body><div class="ad-container">One two three four</div><article><p>Short content</p></article><nav>five six</nav></body></html>"#;
    let metadata = TrekMetadata::default();
    let strict = RemovalOptions { remove_exact_selectors: true, remove_partial_selectors: true };
    let first = extract_generic(html, false, strict, &metadata, &vec![], 0).unwrap();
    assert_eq!(first.metadata.word_count, 2);
    let result = Trek::new(TrekOptions::default()).parse(html).unwrap();
    assert_eq!(result.metadata.word_count, 8);
    assert!(result.metadata.word_count >= first.metadata.word_count);
    assert!(result.content.contains("One two three four"));
}

#[test]
fn test_retry_keeps_the_first_result_when_nothing_is_gained() {
    let html = "<html><body><article><p>Short content</p></article></body></html>";
    let result = Trek::new(TrekOptions::default()).parse(html).unwrap();
    assert_eq!(result.metadata.word_count, 2);
    assert_eq!(result.content, "<article><p>Short content</p></article>");
    assert_eq!(result.extractor_type, None);
    assert_eq!(result.content_markdown, None);
}

#[test]
fn test_no_retry_above_the_threshold() {
    let words = "word ".repeat(200);
    let html = format!("<html><body><nav>gone</nav><p>{words}</p></body></html>");
    let result = Trek::new(TrekOptions::default()).parse(&html).unwrap();
    assert_eq!(result.metadata.word_count, 200);
    assert!(!result.content.contains("gone"));
    let words = "word ".repeat(199);
    let html = format!("<html><body><nav>back</nav><p>{words}</p></body></html>");
    let result = Trek::new(TrekOptions::default()).parse(&html).unwrap();
    assert_eq!(result.metadata.word_count, 200);
    assert!(result.content.contains("back"));
}

#[test]
fn test_metadata_does_not_depend_on_removal() {
    let html = r#"<html><head><title>T</title><meta name="author" content="A"></head><body><nav><p>x</p></nav><p>y</p></body></html>"#;
    let mut options = TrekOptions::default();
    let with = Trek::new(options.clone()).parse(html).unwrap();
    options.removal.remove_exact_selectors = false;
    options.removal.remove_partial_selectors = false;
    let without = Trek::new(options).parse(html).unwrap();
    assert_eq!(with.metadata.title, without.metadata.title);
    assert_eq!(with.metadata.author, without.metadata.author);
    assert_eq!(with.meta_tags.len(), without.meta_tags.len());
}

#[test]
fn test_parse_fails_on_a_document_the_engine_rejects() {
    let html = r#"<select><xmp><script>"use strict";</script></select>"#;
    let result = Trek::new(TrekOptions::default()).parse(html);
    assert!(matches!(result, Err(TrekError::HtmlParse(_))));
}

#[test]
fn test_word_count_is_that_of_the_final_content() {
    let html = "<html><body><p>one  two</p><!-- three four --><p> </p><div>five</div></body></html>";
    let result = Trek::new(TrekOptions::default()).parse(html).unwrap();
    assert_eq!(result.metadata.word_count, count_words(&result.content));
    assert_eq!(result.metadata.word_count, 3);
}

#[test]
fn test_first_image_rules() {
    let image = |src: Option<&str>, w: Option<&str>, h: Option<&str>| trek_rs::markup::ScanEvent::Element {
        rule: 0,
        attributes: vec![src.map(String::from), w.map(String::from), h.map(String::from)],
    };
    let events = vec![
        image(None, None, None),
        image(Some(""), None, None),
        image(Some("data:image/gif;base64,AAAA"), None, None),
        image(Some("/small.png"), Some("49"), Some("600")),
        image(Some("/flat.png"), Some("600"), Some("1")),
        image(Some("/good.png"), Some("50"), Some("x")),
        image(Some("/later.png"), None, None),
    ];
    assert_eq!(first_image_from_events(&events), Some("/good.png".to_string()));
    assert_eq!(first_image_from_events(&events[..5].to_vec()), None);
    assert_eq!(
        Trek::extract_first_image_from_content(r#"<img src="a.png" width="1" height="1"><img src="b.png" width="800" height="600">"#),
        Some("b.png".to_string())
    );
}

#[test]
fn test_no_image_where_the_engine_gives_up() {
    let html = r#"<img src="a.png"><select><xmp><script>"use strict";</script></select>"#;
    assert_eq!(Trek::extract_first_image_from_content(html), None);
}

#[test]
fn test_error_messages() {
    assert_eq!(TrekError::HtmlParse("x".to_string()).message(), "Failed to parse HTML: x");
    assert_eq!(TrekError::DomError("x".to_string()).message(), "DOM manipulation error: x");
    assert_eq!(TrekError::SelectorError("x".to_string()).message(), "Invalid CSS selector: x");
    assert_eq!(TrekError::ExtractionError("x".to_string()).message(), "Failed to extract content: x");
    assert_eq!(TrekError::Other("x".to_string()).message(), "Trek error: x");
}
