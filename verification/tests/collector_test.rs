use trek_rs::collector::{collect, collect_from_events, Collector};
use trek_rs::json::JsonValue;
use trek_rs::markup::ScanEvent;

fn link(rel: &str, href: &str) -> ScanEvent {
    ScanEvent::Element {
        rule: 1,
        attributes: vec![None, None, None, Some(rel.to_string()), Some(href.to_string())],
    }
}

fn text(rule: usize, chunk: &str, last: bool) -> ScanEvent {
    ScanEvent::Text { rule, text: chunk.to_string(), last_in_text_node: last }
}

fn open(rule: usize) -> ScanEvent {
    ScanEvent::Element { rule, attributes: vec![None, None, None, None, None] }
}

#[test]
fn test_favicon_icon_replaces_shortcut_icon() {
    let html = r#"<html><head><link rel="shortcut icon" href="/old.ico"><link rel="icon" href="/new.png"></head><body></body></html>"#;
    let data = collect(html).unwrap();
    assert_eq!(data.favicon, Some("/new.png".to_string()));
}

#[test]
fn test_favicon_icon_stays_before_shortcut_icon() {
    let html = r#"<html><head><link rel="icon" href="/new.png"><link rel="shortcut icon" href="/old.ico"></head><body></body></html>"#;
    let data = collect(html).unwrap();
    assert_eq!(data.favicon, Some("/new.png".to_string()));
}

#[test]
fn test_favicon_from_events() {
    let data = collect_from_events(&vec![link("shortcut icon", "a"), link("icon", "b")]);
    assert_eq!(data.favicon, Some("b".to_string()));
    let data = collect_from_events(&vec![link("icon", "b"), link("shortcut icon", "a")]);
    assert_eq!(data.favicon, Some("b".to_string()));
    let data = collect_from_events(&vec![link("shortcut icon", "a"), link("shortcut", "c")]);
    assert_eq!(data.favicon, Some("a".to_string()));
    let data = collect_from_events(&vec![ScanEvent::Element {
        rule: 1,
        attributes: vec![None, None, None, Some("icon".to_string()), None],
    }]);
    assert_eq!(data.favicon, None);
}

#[test]
fn test_graph_is_flattened_in_order() {
    let html = r#"<html><head><script type="application/ld+json">{"@graph": [{"headline":"A"},{"headline":"B"}]}</script></head><body></body></html>"#;
    let data = collect(html).unwrap();
    assert_eq!(data.schema_org_data.len(), 2);
    assert_eq!(data.schema_org_data[0].text_member("headline"), Some("A".to_string()));
    assert_eq!(data.schema_org_data[1].text_member("headline"), Some("B".to_string()));
}

#[test]
fn test_structured_data_without_graph_is_one_entry() {
    let html = r#"<script type="application/ld+json">{"headline":"A","@graph":"no array"}</script><script type="application/ld+json">[1, 2]</script>"#;
    let data = collect(html).unwrap();
    assert_eq!(data.schema_org_data.len(), 2);
    assert_eq!(data.schema_org_data[0].text_member("headline"), Some("A".to_string()));
    assert!(matches!(data.schema_org_data[1], JsonValue::Array(_)));
}

#[test]
fn test_malformed_structured_data_is_dropped() {
    let html = r#"<script type="application/ld+json">{"headline": </script><script type="application/ld+json">{"headline":"B"}</script>"#;
    let data = collect(html).unwrap();
    assert_eq!(data.schema_org_data.len(), 1);
    assert_eq!(data.schema_org_data[0].text_member("headline"), Some("B".to_string()));
}

#[test]
fn test_title_chunks_are_joined_and_trimmed() {
    let events = vec![open(2), text(2, "  Hello", false), text(2, " World \n", true)];
    let data = collect_from_events(&events);
    assert_eq!(data.title, Some("Hello World".to_string()));
}

#[test]
fn test_title_buffer_is_cleared_by_a_new_element_only() {
    let events = vec![open(2), text(2, "One", true), text(2, "Two", true)];
    assert_eq!(collect_from_events(&events).title, Some("OneTwo".to_string()));
    let events = vec![open(2), text(2, "One", true), open(2), text(2, "Two", true)];
    assert_eq!(collect_from_events(&events).title, Some("Two".to_string()));
    let events = vec![open(2), text(2, "One", false)];
    assert_eq!(collect_from_events(&events).title, None);
}

#[test]
fn test_script_chunks_are_parsed_on_the_last_chunk() {
    let events = vec![open(3), text(3, "{\"name\":", false), text(3, "\"N\"}", true)];
    let data = collect_from_events(&events);
    assert_eq!(data.schema_org_data.len(), 1);
    assert_eq!(data.schema_org_data[0].text_member("name"), Some("N".to_string()));
}

#[test]
fn test_meta_tags_in_document_order_with_decoded_content() {
    let html = r#"<meta name="description" content="A &amp; B"><meta property="og:title" content="T"><meta name="description" content="again"><meta name="nothing"><meta charset="utf-8" content="x">"#;
    let data = collect(html).unwrap();
    assert_eq!(data.meta_tags.len(), 3);
    assert_eq!(data.meta_tags[0].name, Some("description".to_string()));
    assert_eq!(data.meta_tags[0].property, None);
    assert_eq!(data.meta_tags[0].content, "A & B");
    assert_eq!(data.meta_tags[1].property, Some("og:title".to_string()));
    assert_eq!(data.meta_tags[2].content, "again");
}

#[test]
fn test_frame_meta_sets_the_raw_payload() {
    let html = r#"<meta name="fc:frame" content='{"a":"&amp;"}'>"#;
    let data = collect(html).unwrap();
    assert_eq!(data.mini_app_embed, Some(r#"{"a":"&amp;"}"#.to_string()));
    assert_eq!(data.meta_tags[0].content, r#"{"a":"&"}"#);
}

#[test]
fn test_events_of_other_rules_change_nothing() {
    let mut collector = Collector::new();
    collector.advance(&open(7));
    collector.advance(&text(0, "x", true));
    collector.advance(&text(9, "x", true));
    assert!(collector.data.meta_tags.is_empty());
    assert_eq!(collector.data.title, None);
    assert!(collector.data.schema_org_data.is_empty());
}

#[test]
fn test_collect_fails_on_a_document_the_engine_rejects() {
    let html = r#"<select><xmp><script>"use strict";</script></select>"#;
    let error = collect(html).unwrap_err();
    assert!(matches!(error, trek_rs::error::TrekError::HtmlParse(_)));
    assert!(error.message().starts_with("Failed to parse HTML: "));
}
