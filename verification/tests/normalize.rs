use albatross::model::{Entry, Feed, RawDocument};
use albatross::parser::{feed_parser, resolve_pub_date};

fn feed(id: u128, url: &str) -> Feed {
    Feed {
        id,
        url: url.to_string(),
        title: "A feed".to_string(),
        description: None,
        active: true,
    }
}

fn entry(
    title: Option<&str>,
    link: Option<&str>,
    pub_date: Option<&str>,
    content: Option<&str>,
) -> Entry {
    Entry {
        title: title.map(|s| s.to_string()),
        link: link.map(|s| s.to_string()),
        pub_date: pub_date.map(|s| s.to_string()),
        content: content.map(|s| s.to_string()),
    }
}

#[test]
fn well_formed_date_yields_exact_instant() {
    let d = Some("2024-03-01T12:00:00Z".to_string());
    assert_eq!(resolve_pub_date(&d, 99), 1_709_294_400);
}

#[test]
fn epoch_date_yields_zero() {
    let d = Some("1970-01-01T00:00:00Z".to_string());
    assert_eq!(resolve_pub_date(&d, 99), 0);
}

#[test]
fn malformed_date_yields_fallback() {
    let d = Some("Fri, 01 Mar 2024 12:00:00 GMT".to_string());
    assert_eq!(resolve_pub_date(&d, 99), 99);
}

#[test]
fn absent_date_yields_fallback() {
    assert_eq!(resolve_pub_date(&None, 99), 99);
}

#[test]
fn normalize_fills_fields_and_keeps_order() {
    let f = feed(7, "https://example.org/feed");
    let doc = RawDocument {
        entries: vec![
            entry(
                Some("One"),
                Some("https://x/a"),
                Some("2024-03-01T12:00:00Z"),
                Some("Body one"),
            ),
            entry(Some("Two"), Some("https://x/b"), None, Some("Body two")),
        ],
    };
    let articles = feed_parser(&f, &doc, 555);
    assert_eq!(articles.len(), 2);
    assert_eq!(articles[0].feed_id, 7);
    assert_eq!(articles[0].url, "https://x/a");
    assert_eq!(articles[0].title, "One");
    assert_eq!(articles[0].content, "Body one");
    assert_eq!(articles[0].published, 1_709_294_400);
    assert!(!articles[0].read);
    assert_eq!(articles[1].url, "https://x/b");
    assert_eq!(articles[1].published, 555);
    assert!(!articles[1].read);
}

#[test]
fn missing_fields_default_to_empty_strings() {
    let f = feed(3, "https://example.org/feed");
    let doc = RawDocument {
        entries: vec![entry(None, None, None, None)],
    };
    let articles = feed_parser(&f, &doc, 1234);
    assert_eq!(articles.len(), 1);
    assert_eq!(articles[0].title, "");
    assert_eq!(articles[0].url, "");
    assert_eq!(articles[0].content, "");
    assert_eq!(articles[0].published, 1234);
    assert!(!articles[0].read);
}

#[test]
fn dateless_entries_share_one_fallback_timestamp() {
    let f = feed(9, "https://example.org/feed");
    let doc = RawDocument {
        entries: vec![
            entry(Some("a"), Some("https://x/1"), None, None),
            entry(Some("b"), Some("https://x/2"), Some("not a date"), None),
            entry(Some("c"), Some("https://x/3"), None, None),
        ],
    };
    let articles = feed_parser(&f, &doc, 777);
    assert_eq!(articles.len(), 3);
    for a in &articles {
        assert_eq!(a.published, 777);
    }
}

#[test]
fn malformed_date_leaves_other_entries_untouched() {
    let f = feed(9, "https://example.org/feed");
    let doc = RawDocument {
        entries: vec![
            entry(Some("bad"), Some("https://x/bad"), Some("garbage"), None),
            entry(
                Some("good"),
                Some("https://x/good"),
                Some("2024-03-01T12:00:00Z"),
                None,
            ),
        ],
    };
    let articles = feed_parser(&f, &doc, 42);
    assert_eq!(articles.len(), 2);
    assert_eq!(articles[0].published, 42);
    assert_eq!(articles[1].published, 1_709_294_400);
    assert_eq!(articles[1].title, "good");
}
