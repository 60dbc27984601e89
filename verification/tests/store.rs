use albatross::model::{Article, Entry, Feed, RawDocument};
use albatross::store::ArticleStore;

fn article(feed_id: u128, url: &str, title: &str) -> Article {
    Article {
        feed_id,
        url: url.to_string(),
        title: title.to_string(),
        content: String::new(),
        read: false,
        published: 100,
    }
}

#[test]
fn insert_then_conflict_is_a_noop() {
    let mut store = ArticleStore::new();
    assert!(store.insert_if_absent(article(1, "https://x/a", "first")));
    assert_eq!(store.len(), 1);
    assert!(!store.insert_if_absent(article(1, "https://x/a", "again")));
    assert_eq!(store.len(), 1);
    assert_eq!(store.get(0).title, "first");
}

#[test]
fn different_urls_both_insert() {
    let mut store = ArticleStore::new();
    assert!(store.insert_if_absent(article(1, "https://x/a", "a")));
    assert!(store.insert_if_absent(article(1, "https://x/b", "b")));
    assert_eq!(store.len(), 2);
}

#[test]
fn has_url_reports_presence() {
    let mut store = ArticleStore::new();
    store.insert_if_absent(article(1, "https://x/a", "a"));
    assert!(store.has_url(&"https://x/a".to_string()));
    assert!(!store.has_url(&"https://x/b".to_string()));
}

#[test]
fn ingesting_twice_adds_nothing_new() {
    let feed = Feed {
        id: 5,
        url: "https://example.org/feed".to_string(),
        title: "A feed".to_string(),
        description: Some("d".to_string()),
        active: true,
    };
    let doc = RawDocument {
        entries: vec![
            Entry {
                title: Some("One".to_string()),
                link: Some("https://x/a".to_string()),
                pub_date: Some("2024-03-01T12:00:00Z".to_string()),
                content: None,
            },
            Entry {
                title: Some("Two".to_string()),
                link: Some("https://x/b".to_string()),
                pub_date: None,
                content: None,
            },
        ],
    };
    let mut store = ArticleStore::new();
    let first = store.ingest(&feed, &doc, 555);
    assert_eq!(first, 2);
    assert_eq!(store.len(), 2);
    let second = store.ingest(&feed, &doc, 555);
    assert_eq!(second, 0);
    assert_eq!(store.len(), 2);
    assert_eq!(store.get(0).url, "https://x/a");
    assert_eq!(store.get(1).url, "https://x/b");
}

#[test]
fn duplicate_urls_within_one_document_collapse() {
    let feed = Feed {
        id: 5,
        url: "https://example.org/feed".to_string(),
        title: "A feed".to_string(),
        description: None,
        active: true,
    };
    let doc = RawDocument {
        entries: vec![
            Entry {
                title: Some("first".to_string()),
                link: Some("https://x/same".to_string()),
                pub_date: None,
                content: None,
            },
            Entry {
                title: Some("second".to_string()),
                link: Some("https://x/same".to_string()),
                pub_date: None,
                content: None,
            },
        ],
    };
    let mut store = ArticleStore::new();
    assert_eq!(store.ingest(&feed, &doc, 1), 1);
    assert_eq!(store.len(), 1);
    assert_eq!(store.get(0).title, "first");
}
