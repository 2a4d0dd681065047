use trek_rs::utils::{count_words, decode_html_entities, strip_html_tags};

#[test]
fn test_count_words() {
    let html = "<p>Hello world from Trek!</p>";
    assert_eq!(count_words(html), 4);
}

#[test]
fn test_decode_html_entities() {
    let encoded = "&lt;p&gt;Hello &amp; goodbye&lt;/p&gt;";
    let decoded = decode_html_entities(encoded);
    assert_eq!(decoded, "<p>Hello & goodbye</p>");
}

#[test]
fn test_strip_html_tags() {
    let html = "<p>Hello <strong>world</strong>!</p>";
    let text = strip_html_tags(html);
    assert_eq!(text.trim(), "Hello world !");
}
