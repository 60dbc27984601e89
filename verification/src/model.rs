//! Data model of the ingestion pipeline: subscribed feeds, canonical
//! articles, raw document entries, and the error taxonomy.

use vstd::prelude::*;

verus! {

/// A subscribed content source. The identifier is assigned at subscription
/// time and never reused; only feeds with `active` set are polled.
#[derive(Debug)]
pub struct Feed {
    pub id: u128,
    pub url: String,
    pub title: String,
    pub description: Option<String>,
    pub active: bool,
}

/// Mathematical image of a `Feed`.
pub struct FeedView {
    pub id: u128,
    pub url: Seq<char>,
    pub title: Seq<char>,
    pub description: Option<Seq<char>>,
    pub active: bool,
}

impl View for Feed {
    type V = FeedView;

    open spec fn view(&self) -> FeedView {
        FeedView {
            id: self.id,
            url: self.url@,
            title: self.title@,
            description: match self.description {
                Some(d) => Some(d@),
                None => None,
            },
            active: self.active,
        }
    }
}

/// A single normalized entry ingested from a feed. Its source URL is the
/// natural deduplication key: the store keeps at most one article per URL.
/// The publication timestamp is kept in UTC as whole seconds since the Unix
/// epoch. The row identifier is assigned by the durable store at persistence
/// time and is no part of this record.
#[derive(Debug)]
pub struct Article {
    pub feed_id: u128,
    pub url: String,
    pub title: String,
    pub content: String,
    pub read: bool,
    pub published: i64,
}

/// Mathematical image of an `Article`.
pub struct ArticleView {
    pub feed_id: u128,
    pub url: Seq<char>,
    pub title: Seq<char>,
    pub content: Seq<char>,
    pub read: bool,
    pub published: i64,
}

impl View for Article {
    type V = ArticleView;

    open spec fn view(&self) -> ArticleView {
        ArticleView {
            feed_id: self.feed_id,
            url: self.url@,
            title: self.title@,
            content: self.content@,
            read: self.read,
            published: self.published,
        }
    }
}

impl Clone for Article {
    fn clone(&self) -> (res: Self)
        ensures
            res@ == self@,
    {
        Article {
            feed_id: self.feed_id,
            url: self.url.clone(),
            title: self.title.clone(),
            content: self.content.clone(),
            read: self.read,
            published: self.published,
        }
    }
}

/// One entry of a raw syndication document, before normalization: every
/// field the pipeline reads may be absent, and the publication date is
/// free text.
#[derive(Debug)]
pub struct Entry {
    pub title: Option<String>,
    pub link: Option<String>,
    pub pub_date: Option<String>,
    pub content: Option<String>,
}

/// Mathematical image of an `Entry`.
pub struct EntryView {
    pub title: Option<Seq<char>>,
    pub link: Option<Seq<char>>,
    pub pub_date: Option<Seq<char>>,
    pub content: Option<Seq<char>>,
}

impl View for Entry {
    type V = EntryView;

    open spec fn view(&self) -> EntryView {
        EntryView {
            title: match self.title {
                Some(t) => Some(t@),
                None => None,
            },
            link: match self.link {
                Some(l) => Some(l@),
                None => None,
            },
            pub_date: match self.pub_date {
                Some(d) => Some(d@),
                None => None,
            },
            content: match self.content {
                Some(c) => Some(c@),
                None => None,
            },
        }
    }
}

/// A raw syndication document: the entries of one fetched feed, in source
/// order.
#[derive(Debug)]
pub struct RawDocument {
    pub entries: Vec<Entry>,
}

impl View for RawDocument {
    type V = Seq<EntryView>;

    open spec fn view(&self) -> Seq<EntryView> {
        self.entries@.map_values(|e: Entry| e@)
    }
}

/// A failure of one fetch attempt: the network call failed or timed out or
/// answered outside the 2xx range, the body was not a valid syndication
/// document, or the source URL was malformed. None of these is fatal to the
/// pipeline.
#[derive(Clone, Copy, Debug, PartialEq, Eq, Structural)]
pub enum FetchError {
    Network,
    ParseFailure,
    InvalidSource,
}

/// A failure of the durable store: listing the active feeds failed, or a
/// single article write failed. A uniqueness conflict on an article's URL is
/// not a write failure: the store treats it as a successful no-op.
#[derive(Clone, Copy, Debug, PartialEq, Eq, Structural)]
pub enum StorageError {
    ListFailure,
    WriteFailure,
}

} // verus!
