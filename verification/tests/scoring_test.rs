use trek_rs::scoring::ContentScorer;

fn points(half_points: i128) -> f32 {
    half_points as f32 / 2.0
}

#[test]
fn test_score_text() {
    let text = r"
            <p>This is a paragraph with some content.</p>
            <p>Another paragraph with more text.</p>
        ";

    let score = points(ContentScorer::score_text(text));
    assert!(score > 0.0);
}

#[test]
fn test_score_by_attributes() {
    let score = points(ContentScorer::score_by_attributes("article", Some("post-content"), None) as i128);
    assert!(score > 20.0);

    let nav_score = points(ContentScorer::score_by_attributes("nav", None, None) as i128);
    assert!(nav_score < 0.0);
}

#[test]
fn test_score_text_exact() {
    // two words, one paragraph: 2 + 5
    assert_eq!(ContentScorer::score_text("<p>Hello world</p>"), 14);
    // twelve words, two paragraphs, the word "content": 12 + 10 + 10
    let text = "<p>This is a paragraph with some content.</p> <p>Another paragraph with more text.</p>";
    assert_eq!(ContentScorer::score_text(text), 64);
    // three words and two links: (3) halved, so 1.5 points
    assert_eq!(ContentScorer::score_text("<a>x</a> <a>y</a> z"), 3);
    // an image is worth three points, a date five, a byline five
    assert_eq!(ContentScorer::score_text("<img>"), 2 + 6);
    assert_eq!(ContentScorer::score_text("Jan 5, 2024"), 6 + 10);
    assert_eq!(ContentScorer::score_text("by Jane Doe"), 6 + 10);
    // navigation and non-content words pull the score down to the floor
    assert_eq!(ContentScorer::score_text("menu sidebar newsletter"), 0);
    assert_eq!(ContentScorer::score_text(""), 0);
}

#[test]
fn test_score_by_attributes_exact() {
    assert_eq!(ContentScorer::score_by_attributes("article", Some("post-content"), None), 70);
    assert_eq!(ContentScorer::score_by_attributes("main", None, Some("Main")), 60);
    assert_eq!(ContentScorer::score_by_attributes("section", None, None), 20);
    assert_eq!(ContentScorer::score_by_attributes("div", Some("Sidebar"), Some("nav")), 10 - 30 - 20);
    assert_eq!(ContentScorer::score_by_attributes("nav", None, None), -40);
    assert_eq!(ContentScorer::score_by_attributes("span", Some("content-menu"), None), 0);
    assert_eq!(ContentScorer::score_by_attributes("p", None, None), 0);
}
