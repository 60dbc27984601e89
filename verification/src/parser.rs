//! Normalization of raw syndication documents into canonical articles.
//!
//! Parsing the document bytes and parsing a single publication date are done
//! by outside crates behind trusted wrappers; everything that decides — field
//! defaulting, fallback timestamps, batch order — is verified here.

use vstd::prelude::*;

use crate::model::{Article, ArticleView, Entry, EntryView, Feed, FetchError, RawDocument};

verus! {

/// The publication instant that the fixed date layout `%Y-%m-%dT%H:%M:%SZ`
/// assigns to a text, as whole seconds since the Unix epoch, or `None` where
/// the text does not match the layout.
pub uninterp spec fn pub_date_of(s: Seq<char>) -> Option<i64>;

/// Relies on `chrono::NaiveDateTime::parse_from_str` with the fixed layout
/// `%Y-%m-%dT%H:%M:%SZ`, `NaiveDateTime::and_utc` and `DateTime::timestamp`:
/// for a given text the outcome depends on its characters alone, and a text
/// the layout rejects is reported as an error, never a panic.
#[verifier::external_body]
fn parse_pub_date(s: &str) -> (r: Option<i64>)
    ensures
        r == pub_date_of(s@),
{
    match chrono::NaiveDateTime::parse_from_str(s, "%Y-%m-%dT%H:%M:%SZ") {
        Ok(date) => Some(date.and_utc().timestamp()),
        Err(_) => None,
    }
}

/// Relies on `chrono::Utc::now` and `DateTime::timestamp`: the current UTC
/// instant as whole seconds since the Unix epoch. Nothing is promised of the
/// value; every caller must work for every instant handed back. Relies too
/// on the system clock standing at or after the Unix epoch, which
/// `chrono::Utc::now` demands.
#[verifier::external_body]
pub fn now_utc_timestamp() -> (r: i64) {
    chrono::Utc::now().timestamp()
}

/// The timestamp an entry's free-text publication date resolves to: the
/// instant the fixed layout assigns to it where it is present and parseable,
/// and the document's fallback instant where it is absent or malformed.
pub open spec fn spec_resolve_pub_date(pub_date: Option<Seq<char>>, fallback: i64) -> i64 {
    match pub_date {
        Some(s) => match pub_date_of(s) {
            Some(t) => t,
            None => fallback,
        },
        None => fallback,
    }
}

/// Resolve one entry's publication date against the document's fallback
/// instant. A malformed date is not an error: it resolves to the fallback.
pub fn resolve_pub_date(pub_date: &Option<String>, fallback: i64) -> (r: i64)
    ensures
        r == spec_resolve_pub_date(
            match *pub_date {
                Some(s) => Some(s@),
                None => None,
            },
            fallback,
        ),
{
    match pub_date {
        Some(s) => match parse_pub_date(s.as_str()) {
            Some(t) => t,
            None => fallback,
        },
        None => fallback,
    }
}

/// An absent text field defaults to the empty string.
pub open spec fn or_empty(field: Option<Seq<char>>) -> Seq<char> {
    match field {
        Some(s) => s,
        None => Seq::empty(),
    }
}

/// The canonical article a single raw entry normalizes to: the owning feed's
/// identifier, empty-string defaults for absent text fields, the unread flag,
/// and the resolved publication timestamp.
pub open spec fn spec_normalize_entry(feed_id: u128, e: EntryView, fallback: i64) -> ArticleView {
    ArticleView {
        feed_id: feed_id,
        url: or_empty(e.link),
        title: or_empty(e.title),
        content: or_empty(e.content),
        read: false,
        published: spec_resolve_pub_date(e.pub_date, fallback),
    }
}

/// The article batch a whole document normalizes to, in source order.
pub open spec fn spec_normalize(feed_id: u128, entries: Seq<EntryView>, fallback: i64) -> Seq<
    ArticleView,
> {
    entries.map_values(|e: EntryView| spec_normalize_entry(feed_id, e, fallback))
}

fn string_or_empty(field: &Option<String>) -> (r: String)
    ensures
        r@ == or_empty(
            match *field {
                Some(s) => Some(s@),
                None => None,
            },
        ),
{
    match field {
        Some(s) => s.clone(),
        None => String::new(),
    }
}

/// Normalize every entry of a raw document into one article owned by `feed`,
/// preserving the document's entry order. Per-entry problems never abort the
/// batch: an absent title, permalink or body becomes the empty string, and an
/// absent or malformed publication date becomes `fallback`, the one instant
/// fixed for the whole document.
pub fn feed_parser(feed: &Feed, document: &RawDocument, fallback: i64) -> (articles: Vec<Article>)
    ensures
        articles@.len() == document@.len(),
        forall|i: int|
            0 <= i < document@.len() ==> articles@[i]@ == spec_normalize(
                feed@.id,
                document@,
                fallback,
            )[i],
{
    let mut articles: Vec<Article> = Vec::new();
    let n = document.entries.len();
    for k in 0..n
        invariant
            n == document@.len(),
            articles@.len() == k,
            forall|i: int|
                0 <= i < k ==> articles@[i]@ == spec_normalize_entry(
                    feed@.id,
                    document@[i],
                    fallback,
                ),
    {
        let entry = &document.entries[k];
        let published = resolve_pub_date(&entry.pub_date, fallback);
        articles.push(
            Article {
                feed_id: feed.id,
                url: string_or_empty(&entry.link),
                title: string_or_empty(&entry.title),
                content: string_or_empty(&entry.content),
                read: false,
                published,
            },
        );
    }
    articles
}

/// Whether an entry carries no usable publication date: the field is absent,
/// or present but rejected by the expected layout.
pub open spec fn dateless(e: EntryView) -> bool {
    match e.pub_date {
        Some(s) => pub_date_of(s) is None,
        None => true,
    }
}

/// Default timestamp stability: in a document none of whose entries carries
/// a parseable publication date, every normalized article is timestamped at
/// the document's one fallback instant — all of them share one timestamp.
pub proof fn lemma_fallback_timestamp_shared(feed_id: u128, entries: Seq<EntryView>, fallback: i64)
    requires
        forall|k: int| 0 <= k < entries.len() ==> dateless(#[trigger] entries[k]),
    ensures
        forall|k: int|
            0 <= k < entries.len() ==> #[trigger] spec_normalize(
                feed_id,
                entries,
                fallback,
            )[k].published == fallback,
        forall|i: int, j: int|
            0 <= i < entries.len() && 0 <= j < entries.len() ==> spec_normalize(
                feed_id,
                entries,
                fallback,
            )[i].published == spec_normalize(feed_id, entries, fallback)[j].published,
{
    assert forall|k: int|
        0 <= k < entries.len() implies #[trigger] spec_normalize(
        feed_id,
        entries,
        fallback,
    )[k].published == fallback by {
        assert(dateless(entries[k]));
    }
}

/// Parse-format tolerance: an entry whose date the expected layout accepts
/// is timestamped at exactly the instant the layout assigns; one whose date
/// is absent or malformed is timestamped at the document's fallback instant;
/// either way every other entry of the document normalizes exactly as it
/// would on its own — one entry's date never disturbs the rest of the batch.
pub proof fn lemma_parse_format_tolerance(
    feed_id: u128,
    entries: Seq<EntryView>,
    fallback: i64,
    k: int,
)
    requires
        0 <= k < entries.len(),
    ensures
        (entries[k].pub_date is Some && pub_date_of(entries[k].pub_date.unwrap()) is Some)
            ==> spec_normalize(feed_id, entries, fallback)[k].published == pub_date_of(
            entries[k].pub_date.unwrap(),
        ).unwrap(),
        dateless(entries[k]) ==> spec_normalize(feed_id, entries, fallback)[k].published
            == fallback,
        forall|j: int|
            0 <= j < entries.len() && j != k ==> #[trigger] spec_normalize(
                feed_id,
                entries,
                fallback,
            )[j] == spec_normalize_entry(feed_id, entries[j], fallback),
{
}

/// Field defaulting: an entry missing its title, permalink or body still
/// yields an article — the batch keeps one article per entry, none dropped —
/// and each absent field becomes the empty string in it, never an error.
pub proof fn lemma_field_defaulting(feed_id: u128, entries: Seq<EntryView>, fallback: i64, k: int)
    requires
        0 <= k < entries.len(),
    ensures
        spec_normalize(feed_id, entries, fallback).len() == entries.len(),
        entries[k].title is None ==> spec_normalize(feed_id, entries, fallback)[k].title
            == Seq::<char>::empty(),
        entries[k].link is None ==> spec_normalize(feed_id, entries, fallback)[k].url
            == Seq::<char>::empty(),
        entries[k].content is None ==> spec_normalize(feed_id, entries, fallback)[k].content
            == Seq::<char>::empty(),
{
}

/// The entries that the syndication-format parser reads out of a byte
/// document, in document order, or `None` where the bytes are not a valid
/// syndication document. The outcome is a function of the bytes alone.
pub uninterp spec fn document_entries(bytes: Seq<u8>) -> Option<Seq<EntryView>>;

/// Relies on `rss::Channel::read_from`: it parses the bytes of a syndication
/// document, its success and the items it yields depend on the bytes alone,
/// and a malformed document is reported as an error, never a panic. Each
/// item's title, link, publication date and content are carried over
/// unchanged, in document order.
#[verifier::external_body]
pub fn parse_document(bytes: &[u8]) -> (r: Result<RawDocument, FetchError>)
    ensures
        match r {
            Ok(document) => document_entries(bytes@) == Some(document@),
            Err(e) => e == FetchError::ParseFailure && document_entries(bytes@) is None,
        },
{
    match rss::Channel::read_from(bytes) {
        Ok(channel) => Ok(
            RawDocument {
                entries: channel.items.into_iter().map(
                    |item| Entry {
                        title: item.title,
                        link: item.link,
                        pub_date: item.pub_date,
                        content: item.content,
                    },
                ).collect(),
            },
        ),
        Err(_) => Err(FetchError::ParseFailure),
    }
}

} // verus!
