use trek_rs::standardize::{
    flatten_wrapper_elements, remove_empty_elements, remove_html_comments, standardize_content,
    standardize_spaces,
};

#[test]
fn test_standardize_spaces() {
    let html = "  <p>  Multiple   spaces  </p>  ";
    let result = standardize_spaces(html);
    assert_eq!(result, "<p> Multiple spaces </p>");
}

#[test]
fn test_remove_html_comments() {
    let html = "<p>Text<!-- comment -->More text</p>";
    let result = remove_html_comments(html);
    assert_eq!(result, "<p>TextMore text</p>");
}

#[test]
fn test_remove_html_comments_that_span_lines() {
    let html = "<p>a</p><!-- x\ny --><p>b</p><!-- z -->";
    assert_eq!(remove_html_comments(html), "<p>a</p><p>b</p>");
    assert_eq!(remove_html_comments("a<!---->b<!-- c --> d -->"), "ab d -->");
    assert_eq!(remove_html_comments("<!-- never closed"), "<!-- never closed");
    assert_eq!(standardize_content("<p>a</p>\n<!-- x\n\n y -->\n<p>b</p>", "", true), "<p>a</p>\n\n<p>b</p>");
}

#[test]
fn test_remove_empty_elements() {
    let html = "<p>Content</p><p></p><div></div><p>More</p>";
    let result = remove_empty_elements(html);
    assert_eq!(result, "<p>Content</p><p>More</p>");
}

#[test]
fn test_excessive_whitespace_handling() {
    // Test 1: Multiple spaces between words are collapsed to single spaces
    let html_multiple_spaces = "<p>This    has     multiple      spaces</p>";
    let result = standardize_spaces(html_multiple_spaces);
    assert_eq!(result, "<p>This has multiple spaces</p>");

    // Test 2: Whitespace around HTML tags is handled properly
    let html_tag_whitespace = "  <div>   <p>  Content  </p>   </div>  ";
    let result = standardize_spaces(html_tag_whitespace);
    assert_eq!(result, "<div> <p> Content </p> </div>");

    // Test 3: Line breaks and paragraph spacing are preserved
    let html_with_linebreaks =
        "<p>First paragraph</p>\n\n<p>Second paragraph</p>\n<p>Third paragraph</p>";
    let result = standardize_spaces(html_with_linebreaks);
    assert_eq!(
        result,
        "<p>First paragraph</p>\n\n<p>Second paragraph</p>\n<p>Third paragraph</p>"
    );

    // Test 4: Mixed excessive whitespace scenarios
    let html_mixed = "  <article>  \n  <h1>  Title   with    spaces  </h1>  \n\n  <p>  First   paragraph   with     excessive     spaces.  </p>  \n  <p>Second paragraph.</p>  \n  </article>  ";
    let result = standardize_spaces(html_mixed);
    let expected = "<article>\n<h1> Title with spaces </h1>\n\n<p> First paragraph with excessive spaces. </p>\n<p>Second paragraph.</p>\n</article>";
    assert_eq!(result, expected);

    // Test 5: Tabs and other whitespace characters
    let html_with_tabs = "<p>\tTabbed\t\tcontent\t</p>";
    let result = standardize_spaces(html_with_tabs);
    assert_eq!(result, "<p>\tTabbed\t\tcontent\t</p>");

    // Test 6: Complete standardization test with the full pipeline
    let html_complete = "  <div>  \n  <!-- comment -->  \n  <p>  Multiple   spaces  </p>  \n  <p></p>  \n  </div>  ";
    let result = standardize_content(html_complete, "Test Title", false);
    assert!(!result.contains("  ")); // No double spaces
    assert!(!result.contains("<!--")); // No comments
    assert!(!result.contains("<p></p>")); // No empty paragraphs
}

#[test]
fn test_pre_formatted_text_preservation() {
    let html_with_pre =
        "<pre>  This   has    multiple     spaces  \n  And preserves formatting  </pre>";
    let result = standardize_spaces(html_with_pre);
    assert_eq!(
        result,
        "<pre> This has multiple spaces\nAnd preserves formatting </pre>"
    );
}

#[test]
fn test_excessive_newlines() {
    // Test leading newlines
    let html = "\n\n\n\n\n<h1>Title</h1>\n<p>Content</p>";
    let result = standardize_spaces(html);
    assert_eq!(result, "<h1>Title</h1>\n<p>Content</p>");

    // Test multiple consecutive newlines
    let html = "<h1>Title</h1>\n\n\n\n\n<p>Content</p>";
    let result = standardize_spaces(html);
    assert_eq!(result, "<h1>Title</h1>\n\n<p>Content</p>");

    // Test trailing newlines
    let html = "<h1>Title</h1>\n<p>Content</p>\n\n\n\n\n";
    let result = standardize_spaces(html);
    assert_eq!(result, "<h1>Title</h1>\n<p>Content</p>");
}

#[test]
fn test_flatten_wrapper_divs() {
    // Test basic div flattening
    let html = "<div><p>Content</p></div>";
    let result = flatten_wrapper_elements(html);
    assert_eq!(result, "<p>Content</p>");

    // Test nested divs
    let html = "<div><div><div><p>Deep content</p></div></div></div>";
    let result = flatten_wrapper_elements(html);
    assert_eq!(result, "<p>Deep content</p>");

    // Test preserving semantic divs
    let html = r#"<div role="article"><p>Article content</p></div>"#;
    let result = flatten_wrapper_elements(html);
    assert!(result.contains(r#"role="article""#));

    // Test preserving divs with semantic classes
    let html = r#"<div class="article-content"><p>Article</p></div>"#;
    let result = flatten_wrapper_elements(html);
    assert!(result.contains("class=\"article-content\""));

    // Test multiple divs creating excessive newlines
    let html = "<div>\n<div>\n<h1>Title</h1>\n</div>\n<div>\n<p>Content</p>\n</div>\n</div>";
    let result = flatten_wrapper_elements(html);
    // After flattening, we should have less nesting
    assert!(!result.contains("<div><div>"));
}
