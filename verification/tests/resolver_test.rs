use trek_rs::json::JsonValue;
use trek_rs::metadata::{
    embed_from_value, find_schema_text, find_tag_content, is_url_like, parse_embed, strip_www,
    MetadataExtractor, SchemaField, TagSource,
};
use trek_rs::types::MiniAppActionType;
use trek_rs::{CollectedData, MetaTagItem};

fn text(s: &str) -> JsonValue {
    JsonValue::Text(s.to_string())
}

fn object(members: Vec<(&str, JsonValue)>) -> JsonValue {
    JsonValue::Object(members.into_iter().map(|(k, v)| (k.to_string(), v)).collect())
}

fn by_name(name: &str, content: &str) -> MetaTagItem {
    MetaTagItem { name: Some(name.to_string()), property: None, content: content.to_string() }
}

fn by_property(property: &str, content: &str) -> MetaTagItem {
    MetaTagItem { name: None, property: Some(property.to_string()), content: content.to_string() }
}

#[test]
fn test_headline_wins_over_og_title() {
    let mut data = CollectedData::default();
    data.schema_org_data.push(object(vec![("headline", text("Schema")), ("name", text("Name"))]));
    data.meta_tags.push(by_property("og:title", "Open Graph"));
    data.title = Some("Tag".to_string());
    let metadata = MetadataExtractor::extract_from_collected_data(&data, None);
    assert_eq!(metadata.title, "Schema");
}

#[test]
fn test_title_sources_in_order() {
    let mut data = CollectedData::default();
    data.title = Some("Tag".to_string());
    assert_eq!(MetadataExtractor::extract_from_collected_data(&data, None).title, "Tag");
    data.meta_tags.push(by_property("twitter:title", "Twitter"));
    assert_eq!(MetadataExtractor::extract_from_collected_data(&data, None).title, "Twitter");
    data.meta_tags.push(by_property("og:title", "Open Graph"));
    assert_eq!(MetadataExtractor::extract_from_collected_data(&data, None).title, "Open Graph");
    data.schema_org_data.push(object(vec![("other", text("x"))]));
    data.schema_org_data.push(object(vec![("name", text("Name"))]));
    assert_eq!(MetadataExtractor::extract_from_collected_data(&data, None).title, "Name");
    data.schema_org_data.push(object(vec![("headline", text("Late"))]));
    assert_eq!(MetadataExtractor::extract_from_collected_data(&data, None).title, "Late");
    data.schema_org_data.push(object(vec![("headline", text("Later"))]));
    assert_eq!(MetadataExtractor::extract_from_collected_data(&data, None).title, "Late");
}

#[test]
fn test_headline_of_a_later_value_wins_over_a_name() {
    let schema = vec![object(vec![("name", text("N"))]), object(vec![("headline", text("H"))])];
    assert_eq!(MetadataExtractor::extract_title_from_data(&schema, &vec![]), Some("H".to_string()));
    let schema = vec![object(vec![("name", text("N"))]), object(vec![("headline", JsonValue::Null)])];
    assert_eq!(MetadataExtractor::extract_title_from_data(&schema, &vec![]), Some("N".to_string()));
    let tags = vec![by_property("og:title", "OG")];
    assert_eq!(MetadataExtractor::extract_title_from_data(&schema, &tags), Some("N".to_string()));
    assert_eq!(MetadataExtractor::extract_title_from_data(&vec![], &tags), Some("OG".to_string()));
    assert_eq!(MetadataExtractor::extract_title_from_data(&vec![], &vec![]), None);
}

#[test]
fn test_nothing_known_gives_empty_fields() {
    let metadata = MetadataExtractor::extract_from_collected_data(&CollectedData::default(), None);
    assert_eq!(metadata.title, "");
    assert_eq!(metadata.description, "");
    assert_eq!(metadata.author, "");
    assert_eq!(metadata.published, "");
    assert_eq!(metadata.site, "");
    assert_eq!(metadata.image, "");
    assert_eq!(metadata.favicon, "");
    assert_eq!(metadata.domain, "");
    assert_eq!(metadata.word_count, 0);
    assert_eq!(metadata.parse_time, 0);
    assert!(metadata.schema_org_data.is_empty());
    assert!(metadata.mini_app_embed.is_none());
}

#[test]
fn test_article_author_address_is_skipped() {
    let mut data = CollectedData::default();
    data.meta_tags.push(by_property("article:author", "https://example.com/jane"));
    assert_eq!(MetadataExtractor::extract_from_collected_data(&data, None).author, "");
    data.meta_tags.push(by_property("article:author", "http://example.com/jane"));
    data.meta_tags.push(by_property("article:author", "Jane"));
    assert_eq!(MetadataExtractor::extract_from_collected_data(&data, None).author, "Jane");
}

#[test]
fn test_author_sources_in_order() {
    let mut data = CollectedData::default();
    data.meta_tags.push(by_property("article:author", "Property"));
    data.meta_tags.push(by_name("author", "Author"));
    assert_eq!(MetadataExtractor::extract_from_collected_data(&data, None).author, "Author");
    data.meta_tags.push(by_name("byl", "By Line"));
    assert_eq!(MetadataExtractor::extract_from_collected_data(&data, None).author, "By Line");
    data.schema_org_data.push(object(vec![("author", text("Bare"))]));
    assert_eq!(MetadataExtractor::extract_from_collected_data(&data, None).author, "Bare");
    data.schema_org_data.insert(0, object(vec![("author", object(vec![("name", text("Named"))]))]));
    assert_eq!(MetadataExtractor::extract_from_collected_data(&data, None).author, "Named");
}

#[test]
fn test_is_url_like() {
    assert!(is_url_like("http://a"));
    assert!(is_url_like("https://a"));
    assert!(!is_url_like("Jane https://a"));
    assert!(!is_url_like("https:/a"));
    assert!(!is_url_like(""));
}

#[test]
fn test_published_sources_in_order() {
    let mut data = CollectedData::default();
    data.meta_tags.push(by_name("publish_date", "name"));
    assert_eq!(MetadataExtractor::extract_from_collected_data(&data, None).published, "name");
    data.meta_tags.push(by_property("article:published_time", "property"));
    assert_eq!(MetadataExtractor::extract_from_collected_data(&data, None).published, "property");
    data.schema_org_data.push(object(vec![("datePublished", text("schema"))]));
    assert_eq!(MetadataExtractor::extract_from_collected_data(&data, None).published, "schema");
}

#[test]
fn test_description_and_site_sources_in_order() {
    let mut data = CollectedData::default();
    data.meta_tags.push(by_property("twitter:description", "twitter"));
    data.meta_tags.push(by_name("twitter:site", "@site"));
    let metadata = MetadataExtractor::extract_from_collected_data(&data, None);
    assert_eq!(metadata.description, "twitter");
    assert_eq!(metadata.site, "@site");
    data.meta_tags.push(by_property("og:description", "og"));
    data.meta_tags.push(by_property("og:site_name", "Site"));
    let metadata = MetadataExtractor::extract_from_collected_data(&data, None);
    assert_eq!(metadata.description, "og");
    assert_eq!(metadata.site, "Site");
    data.meta_tags.push(by_name("description", "meta"));
    assert_eq!(MetadataExtractor::extract_from_collected_data(&data, None).description, "meta");
    data.schema_org_data.push(object(vec![("description", text("schema"))]));
    assert_eq!(MetadataExtractor::extract_from_collected_data(&data, None).description, "schema");
}

#[test]
fn test_image_forms() {
    let items = vec![object(vec![("image", text("plain"))])];
    assert_eq!(find_schema_text(&items, SchemaField::Image), Some("plain".to_string()));
    let items = vec![object(vec![("image", object(vec![("url", text("object"))]))])];
    assert_eq!(find_schema_text(&items, SchemaField::Image), Some("object".to_string()));
    let items = vec![object(vec![("image", JsonValue::Array(vec![text("first"), text("second")]))])];
    assert_eq!(find_schema_text(&items, SchemaField::Image), Some("first".to_string()));
    let items = vec![object(vec![(
        "image",
        JsonValue::Array(vec![object(vec![("url", text("nested"))])]),
    )])];
    assert_eq!(find_schema_text(&items, SchemaField::Image), Some("nested".to_string()));
    let items = vec![
        object(vec![("image", JsonValue::Array(vec![]))]),
        object(vec![("image", JsonValue::Number("3".to_string()))]),
        object(vec![("image", text("later"))]),
    ];
    assert_eq!(find_schema_text(&items, SchemaField::Image), Some("later".to_string()));
    assert_eq!(find_schema_text(&vec![], SchemaField::Image), None);
}

#[test]
fn test_image_sources_in_order() {
    let mut data = CollectedData::default();
    data.meta_tags.push(by_name("twitter:image", "twitter"));
    assert_eq!(MetadataExtractor::extract_from_collected_data(&data, None).image, "twitter");
    data.meta_tags.push(by_property("og:image", "og"));
    assert_eq!(MetadataExtractor::extract_from_collected_data(&data, None).image, "og");
    data.schema_org_data.push(object(vec![("image", text("schema"))]));
    assert_eq!(MetadataExtractor::extract_from_collected_data(&data, None).image, "schema");
}

#[test]
fn test_find_tag_content_takes_the_first() {
    let tags = vec![by_name("a", "1"), by_property("a", "2"), by_name("a", "3")];
    assert_eq!(find_tag_content(&tags, TagSource::Name, "a"), Some("1".to_string()));
    assert_eq!(find_tag_content(&tags, TagSource::Property, "a"), Some("2".to_string()));
    assert_eq!(find_tag_content(&tags, TagSource::Property, "b"), None);
}

#[test]
fn test_domain() {
    let data = CollectedData::default();
    let domain = |url: &str| MetadataExtractor::extract_from_collected_data(&data, Some(url)).domain;
    assert_eq!(domain("https://www.example.com/a?b=c"), "example.com");
    assert_eq!(domain("https://blog.example.com"), "blog.example.com");
    assert_eq!(domain("https://www.www.example.com"), "example.com");
    assert_eq!(domain("https://127.0.0.1/"), "");
    assert_eq!(domain("not an address"), "");
    assert_eq!(domain(""), "");
}

#[test]
fn test_strip_www() {
    assert_eq!(strip_www("www.a.b"), "a.b");
    assert_eq!(strip_www("www.www."), "");
    assert_eq!(strip_www("wwww.a"), "wwww.a");
    assert_eq!(strip_www("a.www.b"), "a.www.b");
    assert_eq!(strip_www("www"), "www");
}

#[test]
fn test_favicon_and_structured_data_are_copied() {
    let mut data = CollectedData::default();
    data.favicon = Some("/f.ico".to_string());
    data.schema_org_data.push(object(vec![("k", JsonValue::Array(vec![JsonValue::Null, JsonValue::Bool(true)]))]));
    let metadata = MetadataExtractor::extract_from_collected_data(&data, None);
    assert_eq!(metadata.favicon, "/f.ico");
    assert_eq!(metadata.schema_org_data.len(), 1);
    match metadata.schema_org_data[0].get("k") {
        Some(JsonValue::Array(items)) => {
            assert!(matches!(items[0], JsonValue::Null));
            assert!(matches!(items[1], JsonValue::Bool(true)));
        }
        _ => panic!("the member is gone"),
    }
}

#[test]
fn test_embed_is_parsed() {
    let payload = Some(r##"{"version":"next","imageUrl":"i","button":{"title":"t","action":{"type":"view_token","url":"u","name":null}}}"##.to_string());
    let embed = parse_embed(&payload).unwrap();
    assert_eq!(embed.version, "next");
    assert_eq!(embed.image_url, "i");
    assert_eq!(embed.button.title, "t");
    assert_eq!(embed.button.action.action_type, MiniAppActionType::ViewToken);
    assert_eq!(embed.button.action.url, Some("u".to_string()));
    assert_eq!(embed.button.action.name, None);
    assert_eq!(embed.button.action.splash_image_url, None);
    assert_eq!(embed.button.action.splash_background_color, None);
}

#[test]
fn test_malformed_embed_is_absent() {
    assert!(parse_embed(&None).is_none());
    assert!(parse_embed(&Some("{".to_string())).is_none());
    assert!(parse_embed(&Some("[]".to_string())).is_none());
    let no_version = r#"{"imageUrl":"i","button":{"title":"t","action":{"type":"launch_frame"}}}"#;
    assert!(parse_embed(&Some(no_version.to_string())).is_none());
    let bad_type = r#"{"version":"1","imageUrl":"i","button":{"title":"t","action":{"type":"open"}}}"#;
    assert!(parse_embed(&Some(bad_type.to_string())).is_none());
    let bad_url = r#"{"version":"1","imageUrl":"i","button":{"title":"t","action":{"type":"launch_frame","url":3}}}"#;
    assert!(parse_embed(&Some(bad_url.to_string())).is_none());
    let good = r#"{"version":"1","imageUrl":"i","button":{"title":"t","action":{"type":"launch_frame"}}}"#;
    assert!(parse_embed(&Some(good.to_string())).is_some());
}

#[test]
fn test_embed_from_value() {
    let action = object(vec![("type", text("launch_frame")), ("splashImageUrl", text("s"))]);
    let button = object(vec![("title", text("t")), ("action", action)]);
    let value = object(vec![("version", text("v")), ("imageUrl", text("i")), ("button", button)]);
    let embed = embed_from_value(&value).unwrap();
    assert_eq!(embed.button.action.action_type, MiniAppActionType::LaunchFrame);
    assert_eq!(embed.button.action.splash_image_url, Some("s".to_string()));
    assert!(embed_from_value(&text("v")).is_none());
}

#[test]
fn test_json_numbers_keep_their_text() {
    let mut data = CollectedData::default();
    data.mini_app_embed = None;
    let html = r#"<script type="application/ld+json">{"n": 12.50, "m": -3}</script>"#;
    let collected = trek_rs::collector::collect(html).unwrap();
    match collected.schema_org_data[0].get("n") {
        Some(JsonValue::Number(n)) => assert_eq!(n, "12.5"),
        _ => panic!("no number"),
    }
    match collected.schema_org_data[0].get("m") {
        Some(JsonValue::Number(n)) => assert_eq!(n, "-3"),
        _ => panic!("no number"),
    }
    assert!(collected.schema_org_data[0].get("x").is_none());
    assert!(collected.schema_org_data[0].as_str().is_none());
    assert!(collected.schema_org_data[0].as_array().is_none());
}
