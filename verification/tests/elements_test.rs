use trek_rs::elements::code::standardize_code_block;
use trek_rs::elements::headings::normalize_text;
use trek_rs::elements::images::should_preserve;
use trek_rs::elements::process_elements;

#[test]
fn test_standardize_code_block() {
    let html = r#"<pre><code class="language-rust">fn main() {}</code></pre>"#;
    let result = standardize_code_block(html);
    assert!(result.contains("language-rust"));
}

#[test]
fn test_normalize_text() {
    let text = "  Hello\u{00A0}World  ";
    assert_eq!(normalize_text(text), "hello world");
}

// Mock element for testing
struct MockFootnoteElement {
    class: Option<&'static str>,
    id: Option<&'static str>,
}

impl MockFootnoteElement {
    fn get_attribute(&self, name: &str) -> Option<String> {
        match name {
            "class" => self.class.map(String::from),
            "id" => self.id.map(String::from),
            _ => None,
        }
    }
}

fn has_footnote_pattern(el: &MockFootnoteElement) -> bool {
    const PATTERNS: &[&str] = &["footnote", "endnote", "reference"];

    if let Some(class) = el.get_attribute("class") {
        if PATTERNS.iter().any(|pattern| class.contains(pattern)) {
            return true;
        }
    }

    if let Some(id) = el.get_attribute("id") {
        if PATTERNS.iter().any(|pattern| id.contains(pattern)) {
            return true;
        }
    }

    false
}

#[test]
fn test_has_footnote_pattern() {
    let el_with_footnote = MockFootnoteElement {
        class: Some("footnote"),
        id: None,
    };
    assert!(has_footnote_pattern(&el_with_footnote));

    let el_with_endnote = MockFootnoteElement {
        class: Some("endnote-reference"),
        id: None,
    };
    assert!(has_footnote_pattern(&el_with_endnote));

    let el_without = MockFootnoteElement {
        class: Some("content"),
        id: None,
    };
    assert!(!has_footnote_pattern(&el_without));
}

struct MockElement {
    tag: &'static str,
    width: Option<&'static str>,
    height: Option<&'static str>,
}

fn should_preserve_test_image(el: &MockElement) -> bool {
    should_preserve(
        el.tag,
        &el.width.map(String::from),
        &el.height.map(String::from),
    )
}

#[test]
fn test_should_preserve_image() {
    // Test with mock element
    let large_img = MockElement {
        tag: "img",
        width: Some("100"),
        height: Some("100"),
    };
    assert!(should_preserve_test_image(&large_img));

    let small_img = MockElement {
        tag: "img",
        width: Some("30"),
        height: Some("30"),
    };
    assert!(!should_preserve_test_image(&small_img));

    let div_element = MockElement {
        tag: "div",
        width: None,
        height: None,
    };
    assert!(should_preserve_test_image(&div_element)); // Non-img elements are preserved
}

#[test]
fn test_should_preserve_defaults_and_edges() {
    assert!(should_preserve("img", &None, &None));
    assert!(should_preserve("img", &Some("50".to_string()), &Some("50".to_string())));
    assert!(!should_preserve("img", &Some("49".to_string()), &Some("50".to_string())));
    assert!(should_preserve("img", &Some("wide".to_string()), &Some("+60".to_string())));
    assert!(should_preserve("img", &Some("4294967296".to_string()), &None));
    assert!(!should_preserve("img", &Some("0".to_string()), &None));
}

#[test]
fn test_process_elements_strips_heading_attributes() {
    let html = r#"<h2 id="top" class="big" style="color:red" data-x="1">Title</h2>"#;
    let result = process_elements(html).unwrap();
    assert_eq!(result, r#"<h2 id="top" class="big">Title</h2>"#);
}

#[test]
fn test_process_elements_images() {
    let html = r#"<p><img src="/a.png" width="10" height="10"><img src="/pixel.gif"><img src="/b.png" loading="lazy"></p>"#;
    let result = process_elements(html).unwrap();
    assert_eq!(result, r#"<p><img src="/b.png" alt=""></p>"#);
}

#[test]
fn test_process_elements_code_and_footnotes() {
    let html = r##"<pre class="language-rust" data-x="1">x</pre><code class="plain" id="c">y</code><a href="#fn1">1</a><ol class="footnotes"><li>n</li></ol>"##;
    let result = process_elements(html).unwrap();
    assert_eq!(
        result,
        r##"<pre class="language-rust">x</pre><code class="plain">y</code><a href="#fn1" data-footnote="true">1</a><ol class="footnotes" data-footnote="true" data-footnote-list="true"><li>n</li></ol>"##
    );
}
