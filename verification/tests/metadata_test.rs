use trek_rs::metadata::MetadataExtractor;
use trek_rs::{CollectedData, MetaTagItem};

#[test]
fn test_extract_title_from_html() {
    let html = r"<html><head><title>Test Title</title></head></html>";
    let metadata = MetadataExtractor::extract(html);
    assert_eq!(metadata.title, "Test Title");
}

#[test]
fn test_extract_from_collected_data() {
    let mut data = CollectedData::default();
    data.meta_tags.push(MetaTagItem {
        name: Some("description".to_string()),
        property: None,
        content: "Test description".to_string(),
    });

    let metadata = MetadataExtractor::extract_from_collected_data(&data, None);
    assert_eq!(metadata.description, "Test description");
}
