use newsbox::model::Article;
use newsbox::rss::{build_article, default_feeds, merge_and_sort, sort_articles};

fn article(source: &str, title: &str, published: Option<i64>) -> Article {
    Article {
        id: format!("{}::{}", source, title),
        source: source.to_string(),
        title: title.to_string(),
        summary: String::new(),
        link: format!("https://example.org/{}", title),
        published,
    }
}

#[test]
fn default_feed_list_is_the_six_known_feeds() {
    let feeds = default_feeds();
    let names: Vec<&str> = feeds.iter().map(|f| f.name).collect();
    assert_eq!(names, vec!["BBC", "Sky", "FT", "New York Times", "Independent", "Guardian"]);
    assert_eq!(feeds[0].url, "https://feeds.bbci.co.uk/news/rss.xml");
    assert_eq!(feeds[5].url, "https://www.theguardian.com/world/rss");
}

#[test]
fn sort_puts_newest_first_and_undated_last() {
    let items = vec![
        article("FT", "C", None),
        article("Sky", "B", Some(32400)),
        article("BBC", "A", Some(36000)),
    ];
    let sorted = sort_articles(items);
    let titles: Vec<&str> = sorted.iter().map(|a| a.title.as_str()).collect();
    assert_eq!(titles, vec!["A", "B", "C"]);
}

#[test]
fn sort_is_stable_for_equal_timestamps() {
    let items = vec![
        article("BBC", "first", Some(100)),
        article("Sky", "second", Some(100)),
        article("FT", "newer", Some(200)),
        article("BBC", "third", Some(100)),
    ];
    let sorted = sort_articles(items);
    let titles: Vec<&str> = sorted.iter().map(|a| a.title.as_str()).collect();
    assert_eq!(titles, vec!["newer", "first", "second", "third"]);
}

#[test]
fn sort_keeps_undated_in_input_order() {
    let items = vec![
        article("BBC", "u1", None),
        article("Sky", "dated", Some(5)),
        article("FT", "u2", None),
    ];
    let sorted = sort_articles(items);
    let titles: Vec<&str> = sorted.iter().map(|a| a.title.as_str()).collect();
    assert_eq!(titles, vec!["dated", "u1", "u2"]);
}

#[test]
fn merge_and_sort_flattens_in_feed_order_before_sorting() {
    let batch1 = vec![article("BBC", "a", Some(10)), article("BBC", "b", Some(10))];
    let batch2 = vec![article("Sky", "c", Some(10)), article("Sky", "d", Some(20))];
    let merged = merge_and_sort(vec![batch1, batch2]);
    let titles: Vec<&str> = merged.iter().map(|a| a.title.as_str()).collect();
    // "d" is newest; the three equal-keyed items keep feed order
    assert_eq!(titles, vec!["d", "a", "b", "c"]);
}

#[test]
fn build_article_fills_every_field() {
    let a = build_article(
        "BBC",
        Some("  Headline  ".to_string()),
        Some(" https://example.org/x ".to_string()),
        Some(" body text ".to_string()),
        Some("ignored content".to_string()),
        Some("Wed, 18 Feb 2015 23:16:09 GMT".to_string()),
    )
    .expect("link is present");
    assert_eq!(a.source, "BBC");
    assert_eq!(a.title, "Headline");
    assert_eq!(a.summary, "body text");
    assert_eq!(a.link, "https://example.org/x");
    assert_eq!(a.id, "BBC::https://example.org/x");
    assert_eq!(a.published, Some(1424301369));
}

#[test]
fn build_article_drops_entries_without_a_link() {
    assert!(build_article("BBC", Some("t".to_string()), None, None, None, None).is_none());
    assert!(
        build_article("BBC", Some("t".to_string()), Some("   ".to_string()), None, None, None)
            .is_none()
    );
}

#[test]
fn build_article_defaults_title_and_summary() {
    let a = build_article("Sky", None, Some("https://example.org/y".to_string()), None, None, None)
        .expect("link is present");
    assert_eq!(a.title, "Untitled");
    assert_eq!(a.summary, "");
    assert_eq!(a.published, None);
}

#[test]
fn build_article_falls_back_to_content_for_the_summary() {
    let a = build_article(
        "Sky",
        None,
        Some("https://example.org/z".to_string()),
        None,
        Some(" full content ".to_string()),
        None,
    )
    .expect("link is present");
    assert_eq!(a.summary, "full content");
}

#[test]
fn build_article_ignores_unparsable_dates() {
    let a = build_article(
        "Sky",
        None,
        Some("https://example.org/w".to_string()),
        None,
        None,
        Some("not a date".to_string()),
    )
    .expect("link is present");
    assert_eq!(a.published, None);
}

#[test]
fn date_line_formats_the_timestamp() {
    let a = article("BBC", "A", Some(0));
    assert_eq!(a.date_line(), "1970-01-01 00:00");
    let b = article("BBC", "B", Some(1424301369));
    assert_eq!(b.date_line(), "2015-02-18 23:16");
    let c = article("BBC", "C", None);
    assert_eq!(c.date_line(), "—");
}

#[test]
fn sender_line_is_the_source_name() {
    let a = article("Guardian", "A", None);
    assert_eq!(a.sender_line(), "Guardian");
}
