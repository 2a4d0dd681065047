use trek_rs::{Trek, TrekOptions};

#[test]
fn test_new() {
    let options = TrekOptions::default();
    let _trek = Trek::new(options);
}

#[test]
fn test_fallback_image_extraction() {
    let trek = Trek::new(TrekOptions::default());

    // HTML with no og:image meta tag but images in content
    let html = r#"
        <!DOCTYPE html>
        <html>
        <head>
            <title>Test Article</title>
            <meta name="description" content="Test description">
        </head>
        <body>
            <article>
                <h1>Article Title</h1>
                <img src="/tracking.gif" width="1" height="1" alt="">
                <p>Some text here</p>
                <img src="https://example.com/main-image.jpg" width="800" height="600" alt="Main article image">
                <p>More content</p>
                <img src="https://example.com/another-image.jpg" alt="Another image">
            </article>
        </body>
        </html>
    "#;

    let result = trek.parse(html).unwrap();

    // Should extract the first suitable image (not the tracking pixel)
    assert_eq!(result.metadata.image, "https://example.com/main-image.jpg");
}

#[test]
fn test_no_fallback_when_og_image_exists() {
    let trek = Trek::new(TrekOptions::default());

    // HTML with og:image meta tag
    let html = r#"
        <!DOCTYPE html>
        <html>
        <head>
            <title>Test Article</title>
            <meta property="og:image" content="https://example.com/og-image.jpg">
        </head>
        <body>
            <article>
                <h1>Article Title</h1>
                <img src="https://example.com/content-image.jpg" width="800" height="600" alt="Content image">
            </article>
        </body>
        </html>
    "#;

    let result = trek.parse(html).unwrap();

    // Should use og:image, not content image
    assert_eq!(result.metadata.image, "https://example.com/og-image.jpg");
}

#[test]
fn test_no_suitable_images() {
    let trek = Trek::new(TrekOptions::default());

    // HTML with only small/tracking images
    let html = r#"
        <!DOCTYPE html>
        <html>
        <head>
            <title>Test Article</title>
        </head>
        <body>
            <article>
                <h1>Article Title</h1>
                <img src="/tracking.gif" width="1" height="1" alt="">
                <img src="/icon.png" width="16" height="16" alt="Icon">
                <img src="data:image/gif;base64,R0lGODlhAQABAIAAAAAAAP///yH5BAEAAAAALAAAAAABAAEAAAIBRAA7" alt="">
                <p>Content without suitable images</p>
            </article>
        </body>
        </html>
    "#;

    let result = trek.parse(html).unwrap();

    // Should have empty image since no suitable images found
    assert_eq!(result.metadata.image, "");
}

#[test]
fn lib_test_basic_extraction() {
    let trek = Trek::new(TrekOptions::default());
    let html = r#"
        <html>
            <head>
                <title>Test Page</title>
                <meta name="description" content="A test page">
            </head>
            <body>
                <article>
                    <h1>Main Title</h1>
                    <p>This is a test paragraph with some content.</p>
                </article>
            </body>
        </html>
    "#;

    let result = trek.parse(html).unwrap();
    assert!(result.metadata.word_count > 0);
    assert_eq!(result.metadata.title, "Test Page");
    assert_eq!(result.metadata.description, "A test page");
}

#[test]
fn test_debug_extraction() {
    let trek = Trek::new(TrekOptions {
        debug: true,
        ..Default::default()
    });

    let html = r#"
        <html>
            <body>
                <main>
                    <h1>Main Content</h1>
                    <p>First paragraph here.</p>
                    <p>Second paragraph here.</p>
                </main>
            </body>
        </html>
    "#;

    let result = trek.parse(html).unwrap();
    println!("Debug - Content: {}", result.content);
    println!("Debug - Word count: {}", result.metadata.word_count);

    assert!(!result.content.is_empty(), "Should have content");
    assert!(result.metadata.word_count > 0, "Should count words");
}

#[test]
fn test_remove_clutter() {
    let trek = Trek::new(TrekOptions::default());

    let html = r#"
        <html>
            <body>
                <nav>Navigation</nav>
                <article>Content</article>
                <footer>Footer</footer>
            </body>
        </html>
    "#;

    let result = trek.remove_clutter(html).unwrap();
    println!("After clutter removal: {result}");

    assert!(!result.contains("<nav>"), "Should remove nav");
    assert!(!result.contains("<footer>"), "Should remove footer");
    assert!(result.contains("<article>"), "Should keep article");
}

#[test]
fn test_html_tags_preserved_in_extraction() {
    let trek = Trek::new(TrekOptions::default());

    let html = r#"
        <html>
            <head>
                <title>Test Article</title>
            </head>
            <body>
                <article>
                    <h1>Main Title</h1>
                    <p>This article references <a href="https://example.com">an important source</a> for context.</p>
                    <p>You can also check <a href="https://test.com">this link</a> and <a href="https://another.com">another link</a> for more info.</p>
                    <p>This text is <strong>very important</strong> and <em>emphasized</em>.</p>
                </article>
            </body>
        </html>
    "#;

    let result = trek.parse(html).unwrap();
    println!("Extracted content: {:?}", result.content);

    // Should preserve HTML tags
    assert!(
        result.content.contains("<a href="),
        "Should preserve anchor tags"
    );
    assert!(
        result.content.contains("<strong>"),
        "Should preserve strong tags"
    );
    assert!(result.content.contains("<em>"), "Should preserve em tags");
    assert!(
        result.content.contains("</a>"),
        "Should preserve closing anchor tags"
    );
    assert!(
        result.content.contains("</strong>"),
        "Should preserve closing strong tags"
    );
    assert!(
        result.content.contains("</em>"),
        "Should preserve closing em tags"
    );

    // Should preserve content
    assert!(
        result.content.contains("an important source"),
        "Should preserve link text"
    );
    assert!(
        result.content.contains("very important"),
        "Should preserve strong text"
    );
    assert!(
        result.content.contains("emphasized"),
        "Should preserve em text"
    );
}

#[test]
fn test_whitespace_handling_in_extraction() {
    let trek = Trek::new(TrekOptions::default());

    let html = r#"
        <html>
            <head>
                <title>Test Article</title>
            </head>
            <body>
                <article>
                    <h1>Title   with    excessive     spaces</h1>
                    <p>This    paragraph    has     multiple      spaces     between    words.</p>
                    <p>
                        This paragraph has
                        line breaks and     multiple
                        spaces    throughout.
                    </p>
                    <p>Normal paragraph.</p>
                </article>
            </body>
        </html>
    "#;

    let result = trek.parse(html).unwrap();
    println!("Whitespace test result:\n{}", result.content);

    // Should collapse multiple spaces
    assert!(
        !result.content.contains("   "),
        "Should not have triple spaces"
    );
    assert!(
        !result.content.contains("  "),
        "Should not have double spaces"
    );

    // Should preserve paragraph structure
    assert!(result.content.contains("<p>"), "Should have paragraph tags");
    assert!(
        result.content.contains("</p>"),
        "Should have closing paragraph tags"
    );

    // Content should be readable
    assert!(
        result.content.contains("Title with excessive spaces"),
        "Title should be normalized"
    );
    assert!(
        result
            .content
            .contains("This paragraph has multiple spaces between words"),
        "First paragraph should be normalized"
    );
}

#[test]
fn test_div_flattening_reduces_newlines() {
    let trek = Trek::new(TrekOptions::default());

    let html = r#"
        <html>
            <head>
                <title>Test Article</title>
            </head>
            <body>
                <div>
                    <div>
                        <div>
                            <h1>How A.I. Sees Us</h1>
                        </div>
                    </div>
                    <div>
                        <div>
                            <p>Not only can A.I. now make these assessments with remarkable accuracy.</p>
                        </div>
                    </div>
                </div>
            </body>
        </html>
    "#;

    let result = trek.parse(html).unwrap();
    println!("Div flattening result:\n{}", result.content);

    // Should not have excessive newlines at the start
    assert!(
        !result.content.starts_with("\n\n\n"),
        "Should not start with multiple newlines"
    );

    // Should have flattened the divs
    let div_count = result.content.matches("<div").count();
    assert!(
        div_count == 0,
        "All wrapper divs should be flattened, found {div_count} divs"
    );

    // Content should be clean
    assert!(result.content.contains("<h1>How A.I. Sees Us</h1>"));
    assert!(
        result
            .content
            .contains("<p>Not only can A.I. now make these assessments")
    );
}
