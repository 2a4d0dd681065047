use trek_rs::error::TrekError;
use trek_rs::extractor::{Extractor, ExtractorRegistry, GenericExtractor};
use trek_rs::extractors::FarcasterExtractor;
use trek_rs::json::JsonValue;
use trek_rs::types::ExtractedContent;

#[test]
fn test_generic_extractor() {
    let extractor = GenericExtractor;
    let html = r"<html><head><title>Test Title</title></head></html>";

    let result = extractor.extract_from_html(html).unwrap();
    assert_eq!(result.title, Some("Test Title".to_string()));
}

struct TestExtractor;

impl Extractor for TestExtractor {
    fn can_extract(&self, url: &str, _schema_org_data: &Vec<JsonValue>) -> bool {
        url.contains("test.com")
    }
    fn extract_from_html(&self, _html: &str) -> Result<ExtractedContent, TrekError> {
        Ok(ExtractedContent::default())
    }
    fn name(&self) -> &'static str {
        "test"
    }
}

#[test]
fn test_registry() {
    let mut registry = ExtractorRegistry::new();
    registry.register(Box::new(GenericExtractor));

    // GenericExtractor should not match any URL (it returns false for can_extract)
    let extractor = registry.find_extractor_from_data("https://example.com", &vec![]);
    assert!(extractor.is_none());

    // Test that registry can find extractors when they match
    registry.register(Box::new(TestExtractor));
    let extractor = registry.find_extractor_from_data("https://test.com", &vec![]);
    assert!(extractor.is_some());
    assert_eq!(extractor.unwrap().name(), "test");
}

#[test]
fn test_can_extract() {
    let extractor = FarcasterExtractor;

    assert!(extractor.can_extract("https://crowdfund.seedclub.com/c/123", &vec![]));
    assert!(extractor.can_extract("https://yoink.party/framesV2", &vec![]));
    assert!(!extractor.can_extract("https://example.com", &vec![]));
}
