//! The scheduler loop of the ingestion pipeline, as a state machine.
//!
//! The loop itself — issuing the HTTP fetch, the storage reads and writes,
//! and the five-minute sleep — runs outside the library; it performs each
//! `Command` the machine hands out and answers with the matching `Event`.
//! Every decision of the cycle is taken here and verified: which feed is
//! polled next, what a fetched document normalizes to, how a failure is
//! contained. A failed feed listing skips the cycle; a failed fetch or an
//! unparseable document is contained to its own feed and the cycle moves on
//! to the next one; nothing the machine does ends the loop.

use vstd::prelude::*;

use crate::model::{Article, ArticleView, EntryView, Feed, FeedView, FetchError, StorageError};
use crate::parser::{document_entries, feed_parser, parse_document, spec_normalize};

verus! {

/// Seconds the loop rests between the end of one cycle and the start of the
/// next.
pub const CYCLE_DELAY_SECONDS: u64 = 300;

/// The views of a sequence of feeds, in order.
pub open spec fn feed_views(s: Seq<Feed>) -> Seq<FeedView> {
    s.map_values(|f: Feed| f@)
}

/// The views of a sequence of articles, in order.
pub open spec fn article_views(s: Seq<Article>) -> Seq<ArticleView> {
    s.map_values(|a: Article| a@)
}

/// What the loop outside the library is asked to do next.
#[derive(Debug)]
pub enum Command {
    /// Read the list of active feeds from the durable store.
    ListFeeds,
    /// Fetch the document behind `url` over HTTP.
    Fetch { url: String },
    /// Write each article with a duplicate-safe insert; a failed write skips
    /// that article alone.
    Persist { articles: Vec<Article> },
    /// Rest for `seconds` before the next cycle.
    Sleep { seconds: u64 },
}

/// Mathematical image of a `Command`.
pub enum CommandView {
    ListFeeds,
    Fetch { url: Seq<char> },
    Persist { articles: Seq<ArticleView> },
    Sleep { seconds: u64 },
}

impl View for Command {
    type V = CommandView;

    open spec fn view(&self) -> CommandView {
        match *self {
            Command::ListFeeds => CommandView::ListFeeds,
            Command::Fetch { url } => CommandView::Fetch { url: url@ },
            Command::Persist { articles } => CommandView::Persist {
                articles: article_views(articles@),
            },
            Command::Sleep { seconds } => CommandView::Sleep { seconds },
        }
    }
}

/// What the loop outside the library reports back: the outcome of the one
/// command the machine last handed out.
#[derive(Debug)]
pub enum Event {
    /// The store listed the active feeds.
    FeedsListed { feeds: Vec<Feed> },
    /// The store could not be listed.
    ListFailed { error: StorageError },
    /// The fetch answered with this response body.
    Fetched { body: Vec<u8> },
    /// The fetch failed before a body was read.
    FetchFailed { error: FetchError },
    /// Every article of the batch was offered to the store.
    Persisted,
    /// The rest period is over.
    Woke,
}

/// Mathematical image of an `Event`.
pub enum EventView {
    FeedsListed { feeds: Seq<FeedView> },
    ListFailed { error: StorageError },
    Fetched { body: Seq<u8> },
    FetchFailed { error: FetchError },
    Persisted,
    Woke,
}

impl View for Event {
    type V = EventView;

    open spec fn view(&self) -> EventView {
        match *self {
            Event::FeedsListed { feeds } => EventView::FeedsListed { feeds: feed_views(feeds@) },
            Event::ListFailed { error } => EventView::ListFailed { error },
            Event::Fetched { body } => EventView::Fetched { body: body@ },
            Event::FetchFailed { error } => EventView::FetchFailed { error },
            Event::Persisted => EventView::Persisted,
            Event::Woke => EventView::Woke,
        }
    }
}

enum Phase {
    Listing,
    Fetching { feeds: Vec<Feed>, next: usize },
    Persisting { feeds: Vec<Feed>, next: usize },
    Resting,
}

/// Where the machine stands: which answer it is waiting for.
pub enum PhaseView {
    /// A feed listing is pending.
    Listing,
    /// A fetch of `feeds[next]` is pending.
    Fetching { feeds: Seq<FeedView>, next: int },
    /// A persist of the batch normalized from `feeds[next]` is pending.
    Persisting { feeds: Seq<FeedView>, next: int },
    /// The inter-cycle rest is pending.
    Resting,
}

impl View for Phase {
    type V = PhaseView;

    closed spec fn view(&self) -> PhaseView {
        match *self {
            Phase::Listing => PhaseView::Listing,
            Phase::Fetching { feeds, next } => PhaseView::Fetching {
                feeds: feed_views(feeds@),
                next: next as int,
            },
            Phase::Persisting { feeds, next } => PhaseView::Persisting {
                feeds: feed_views(feeds@),
                next: next as int,
            },
            Phase::Resting => PhaseView::Resting,
        }
    }
}

/// Whether `ev` answers the command pending in phase `p`.
pub open spec fn phase_accepts(p: PhaseView, ev: EventView) -> bool {
    match p {
        PhaseView::Listing => ev is FeedsListed || ev is ListFailed,
        PhaseView::Fetching { .. } => ev is Fetched || ev is FetchFailed,
        PhaseView::Persisting { .. } => ev is Persisted,
        PhaseView::Resting => ev is Woke,
    }
}

/// The machine once the work on `feeds[next]` is over, successful or not:
/// a fetch of the following feed where one is left, the inter-cycle rest
/// otherwise.
pub open spec fn spec_advance(feeds: Seq<FeedView>, next: int) -> (PhaseView, CommandView) {
    if next + 1 < feeds.len() {
        (
            PhaseView::Fetching { feeds, next: next + 1 },
            CommandView::Fetch { url: feeds[next + 1].url },
        )
    } else {
        (PhaseView::Resting, CommandView::Sleep { seconds: CYCLE_DELAY_SECONDS })
    }
}

/// The transition relation of the scheduler: from the pending phase and the
/// event answering it to the next phase and the next command. `now` is the
/// UTC instant of the step; it becomes the fallback timestamp of a document
/// normalized in this step.
pub open spec fn spec_step(p: PhaseView, ev: EventView, now: i64) -> (PhaseView, CommandView) {
    match p {
        PhaseView::Listing => match ev {
            EventView::FeedsListed { feeds } => {
                if feeds.len() == 0 {
                    (PhaseView::Resting, CommandView::Sleep { seconds: CYCLE_DELAY_SECONDS })
                } else {
                    (
                        PhaseView::Fetching { feeds, next: 0 },
                        CommandView::Fetch { url: feeds[0].url },
                    )
                }
            },
            _ => (PhaseView::Resting, CommandView::Sleep { seconds: CYCLE_DELAY_SECONDS }),
        },
        PhaseView::Fetching { feeds, next } => match ev {
            EventView::Fetched { body } => match document_entries(body) {
                Some(entries) => (
                    PhaseView::Persisting { feeds, next },
                    CommandView::Persist {
                        articles: spec_normalize(feeds[next].id, entries, now),
                    },
                ),
                None => spec_advance(feeds, next),
            },
            _ => spec_advance(feeds, next),
        },
        PhaseView::Persisting { feeds, next } => spec_advance(feeds, next),
        PhaseView::Resting => (PhaseView::Listing, CommandView::ListFeeds),
    }
}

/// The scheduler state machine. Constructed waiting to list feeds; every
/// `step` consumes the event answering the pending command and hands out the
/// next command.
pub struct Worker {
    phase: Phase,
}

impl Worker {
    pub closed spec fn view(&self) -> PhaseView {
        self.phase@
    }

    /// The machine's invariant: a pending fetch or persist always points at
    /// a feed of the cycle's listing.
    pub open spec fn wf(&self) -> bool {
        match self@ {
            PhaseView::Fetching { feeds, next } => 0 <= next < feeds.len(),
            PhaseView::Persisting { feeds, next } => 0 <= next < feeds.len(),
            _ => true,
        }
    }

    /// A fresh machine, together with the first command of the first cycle.
    pub fn new() -> (r: (Worker, Command))
        ensures
            r.0@ == PhaseView::Listing,
            r.0.wf(),
            r.1@ == CommandView::ListFeeds,
    {
        (Worker { phase: Phase::Listing }, Command::ListFeeds)
    }

    /// One transition of the scheduler: consume the event answering the
    /// pending command and hand out the machine that waits on the next
    /// command, exactly as `spec_step` says.
    pub fn step(self, event: Event, now: i64) -> (r: (Worker, Command))
        requires
            self.wf(),
            phase_accepts(self@, event@),
        ensures
            r.0@ == spec_step(self@, event@, now).0,
            r.1@ == spec_step(self@, event@, now).1,
            r.0.wf(),
    {
        match self.phase {
            Phase::Listing => match event {
                Event::FeedsListed { feeds } => {
                    if feeds.len() == 0 {
                        (
                            Worker { phase: Phase::Resting },
                            Command::Sleep { seconds: CYCLE_DELAY_SECONDS },
                        )
                    } else {
                        let url = feeds[0].url.clone();
                        (
                            Worker { phase: Phase::Fetching { feeds, next: 0 } },
                            Command::Fetch { url },
                        )
                    }
                },
                _ => (
                    Worker { phase: Phase::Resting },
                    Command::Sleep { seconds: CYCLE_DELAY_SECONDS },
                ),
            },
            Phase::Fetching { feeds, next } => match event {
                Event::Fetched { body } => match parse_document(body.as_slice()) {
                    Ok(document) => {
                        let articles = feed_parser(&feeds[next], &document, now);
                        proof {
                            assert(article_views(articles@) =~= spec_normalize(
                                feed_views(feeds@)[next as int].id,
                                document@,
                                now,
                            ));
                        }
                        (
                            Worker { phase: Phase::Persisting { feeds, next } },
                            Command::Persist { articles },
                        )
                    },
                    Err(_) => Self::advance(feeds, next),
                },
                _ => Self::advance(feeds, next),
            },
            Phase::Persisting { feeds, next } => Self::advance(feeds, next),
            Phase::Resting => (Worker { phase: Phase::Listing }, Command::ListFeeds),
        }
    }

    fn advance(feeds: Vec<Feed>, next: usize) -> (r: (Worker, Command))
        requires
            next < feeds@.len(),
        ensures
            r.0@ == spec_advance(feed_views(feeds@), next as int).0,
            r.1@ == spec_advance(feed_views(feeds@), next as int).1,
            r.0.wf(),
    {
        if feeds.len() - next > 1 {
            let url = feeds[next + 1].url.clone();
            (Worker { phase: Phase::Fetching { feeds, next: next + 1 } }, Command::Fetch { url })
        } else {
            (Worker { phase: Phase::Resting }, Command::Sleep { seconds: CYCLE_DELAY_SECONDS })
        }
    }
}

/// Per-feed isolation: when the fetch of one feed fails mid-cycle, the
/// machine moves on to the next feed, asks for exactly that feed's URL, and
/// that feed's successfully fetched document normalizes to exactly the batch
/// it would have yielded had the earlier feed been reachable.
pub proof fn lemma_fetch_failure_isolated(
    feeds: Seq<FeedView>,
    next: int,
    error: FetchError,
    body: Seq<u8>,
    entries: Seq<EntryView>,
    now: i64,
    later: i64,
)
    requires
        0 <= next,
        next + 1 < feeds.len(),
        document_entries(body) == Some(entries),
    ensures
        spec_step(
            PhaseView::Fetching { feeds, next },
            EventView::FetchFailed { error },
            now,
        ) == (
            PhaseView::Fetching { feeds, next: next + 1 },
            CommandView::Fetch { url: feeds[next + 1].url },
        ),
        spec_step(
            PhaseView::Fetching { feeds, next: next + 1 },
            EventView::Fetched { body },
            later,
        ) == (
            PhaseView::Persisting { feeds, next: next + 1 },
            CommandView::Persist { articles: spec_normalize(feeds[next + 1].id, entries, later) },
        ),
{
}

} // verus!
