use trek_rs::html_to_text::{clean_text, html_to_text};

#[test]
fn test_basic_html_to_text() {
    let html = r"
            <p>First paragraph.</p>
            <p>Second paragraph.</p>
        ";

    let text = html_to_text(html);
    assert!(text.contains("First paragraph"));
    assert!(text.contains("Second paragraph"));
}

#[test]
fn test_links_preserved_as_text() {
    let html = r#"<p>Check out <a href="https://example.com">this link</a> for more info.</p>"#;
    let text = html_to_text(html);
    assert!(text.contains("Check out this link for more info"));
}

#[test]
fn test_multiple_links_in_content() {
    let html = r#"
            <p>Here's a paragraph with <a href="https://example.com">a link</a> in it.</p>
            <p>And another with <a href="https://test.com">multiple</a> <a href="https://test2.com">links</a>.</p>
        "#;
    let text = html_to_text(html);
    assert!(text.contains("Here's a paragraph with a link in it"));
    assert!(text.contains("And another with multiple links"));
}

#[test]
fn test_lists() {
    let html = r"
            <ul>
                <li>First item</li>
                <li>Second item</li>
            </ul>
        ";

    let text = html_to_text(html);
    assert!(text.contains("• First item"));
    assert!(text.contains("• Second item"));
}

#[test]
fn test_headings() {
    let html = r"
            <h1>Main Title</h1>
            <p>Some content.</p>
            <h2>Subtitle</h2>
            <p>More content.</p>
        ";

    let text = html_to_text(html);
    assert!(text.contains("Main Title"));
    assert!(text.contains("Some content"));
    assert!(text.contains("Subtitle"));
    assert!(text.contains("More content"));
}

#[test]
fn test_skip_scripts_and_styles() {
    let html = r"
            <p>Visible content</p>
            <script>console.log('invisible');</script>
            <style>body { color: red; }</style>
            <p>More visible content</p>
        ";

    let text = html_to_text(html);
    assert!(!text.contains("console.log"));
    assert!(!text.contains("color: red"));
    assert!(text.contains("Visible content"));
    assert!(text.contains("More visible content"));
}

#[test]
fn test_image_alt_text() {
    let html = r#"<p>Here's an image: <img src="test.jpg" alt="Test description"></p>"#;
    let text = html_to_text(html);
    assert!(text.contains("[Image: Test description]"));
}

#[test]
fn test_html_to_text_exact() {
    let html = "<h1>Title</h1><p>One<br>two</p><ul><li>a</li><li>b</li></ul>";
    assert_eq!(html_to_text(html), "Title\nOne\ntwo\n• a\n• b");
}

#[test]
fn test_clean_text_exact() {
    assert_eq!(clean_text("\n\n  a   b \n\n\n\n c\t d\n\n"), "a b\n\nc d");
    assert_eq!(clean_text(""), "");
    assert_eq!(clean_text(" \n \n"), "");
}

#[test]
fn test_text_before_the_point_where_the_engine_gives_up_is_kept() {
    let html = r#"<p>Before</p><select><xmp><script>"use strict";</script></select><p>After</p>"#;
    assert_eq!(html_to_text(html), "Before");
}
