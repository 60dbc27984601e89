//! The article store: duplicate-safe persistence keyed on the article's
//! source URL.
//!
//! `ArticleStore` is the library's statement of what any article store must
//! do: insert an article exactly when no stored article carries its URL, and
//! treat a second insert of the same URL as a successful no-op. The durable
//! store outside the library meets the same contract through a
//! conflict-skipping insert; this in-memory form is the verified model of it
//! and serves tests directly.

use vstd::prelude::*;

use crate::model::{Article, ArticleView, Feed, RawDocument};
use crate::parser::{feed_parser, spec_normalize};

verus! {

/// Whether some stored article carries the URL `u`.
pub open spec fn contains_url(s: Seq<ArticleView>, u: Seq<char>) -> bool {
    exists|i: int| 0 <= i < s.len() && s[i].url == u
}

/// The store after a duplicate-safe insert: unchanged where the URL is
/// already present, extended by the article otherwise.
pub open spec fn spec_insert_if_absent(s: Seq<ArticleView>, a: ArticleView) -> Seq<ArticleView> {
    if contains_url(s, a.url) {
        s
    } else {
        s.push(a)
    }
}

/// The store after duplicate-safe inserts of a whole batch, in batch order.
pub open spec fn spec_ingest(s: Seq<ArticleView>, batch: Seq<ArticleView>) -> Seq<ArticleView>
    decreases batch.len(),
{
    if batch.len() == 0 {
        s
    } else {
        spec_ingest(spec_insert_if_absent(s, batch[0]), batch.drop_first())
    }
}

/// At most one stored article per source URL.
pub open spec fn unique_urls(s: Seq<ArticleView>) -> bool {
    forall|i: int, j: int| 0 <= i < j < s.len() ==> s[i].url != s[j].url
}

proof fn lemma_contains_push(s: Seq<ArticleView>, a: ArticleView, u: Seq<char>)
    ensures
        contains_url(s, u) ==> contains_url(s.push(a), u),
        a.url == u ==> contains_url(s.push(a), u),
{
    if contains_url(s, u) {
        let i = choose|i: int| 0 <= i < s.len() && s[i].url == u;
        assert(s.push(a)[i].url == u);
    }
    if a.url == u {
        assert(s.push(a)[s.len() as int].url == u);
    }
}

proof fn lemma_insert_preserves_contains(s: Seq<ArticleView>, a: ArticleView, u: Seq<char>)
    ensures
        contains_url(s, u) ==> contains_url(spec_insert_if_absent(s, a), u),
{
    if contains_url(s, u) && !contains_url(s, a.url) {
        lemma_contains_push(s, a, u);
    }
}

proof fn lemma_ingest_preserves_contains(s: Seq<ArticleView>, batch: Seq<ArticleView>, u: Seq<char>)
    ensures
        contains_url(s, u) ==> contains_url(spec_ingest(s, batch), u),
    decreases batch.len(),
{
    if batch.len() > 0 {
        lemma_insert_preserves_contains(s, batch[0], u);
        lemma_ingest_preserves_contains(spec_insert_if_absent(s, batch[0]), batch.drop_first(), u);
    }
}

proof fn lemma_ingest_contains_batch(s: Seq<ArticleView>, batch: Seq<ArticleView>, k: int)
    requires
        0 <= k < batch.len(),
    ensures
        contains_url(spec_ingest(s, batch), batch[k].url),
    decreases batch.len(),
{
    let s1 = spec_insert_if_absent(s, batch[0]);
    if k == 0 {
        if !contains_url(s, batch[0].url) {
            lemma_contains_push(s, batch[0], batch[0].url);
        }
        lemma_ingest_preserves_contains(s1, batch.drop_first(), batch[0].url);
    } else {
        assert(batch.drop_first()[k - 1] == batch[k]);
        lemma_ingest_contains_batch(s1, batch.drop_first(), k - 1);
    }
}

proof fn lemma_ingest_noop(s: Seq<ArticleView>, batch: Seq<ArticleView>)
    requires
        forall|k: int| 0 <= k < batch.len() ==> contains_url(s, #[trigger] batch[k].url),
    ensures
        spec_ingest(s, batch) == s,
    decreases batch.len(),
{
    if batch.len() > 0 {
        assert(contains_url(s, batch[0].url));
        assert(spec_insert_if_absent(s, batch[0]) == s);
        assert forall|k: int|
            0 <= k < batch.drop_first().len() implies contains_url(
            s,
            #[trigger] batch.drop_first()[k].url,
        ) by {
            assert(batch.drop_first()[k] == batch[k + 1]);
        }
        lemma_ingest_noop(s, batch.drop_first());
    }
}

/// Ingesting the same batch twice in succession leaves exactly the store
/// that ingesting it once leaves: after the first pass every URL of the
/// batch is present, so the second pass inserts nothing.
pub proof fn lemma_ingest_idempotent(s: Seq<ArticleView>, batch: Seq<ArticleView>)
    ensures
        spec_ingest(spec_ingest(s, batch), batch) == spec_ingest(s, batch),
{
    let t = spec_ingest(s, batch);
    assert forall|k: int| 0 <= k < batch.len() implies contains_url(
        t,
        #[trigger] batch[k].url,
    ) by {
        lemma_ingest_contains_batch(s, batch, k);
    }
    lemma_ingest_noop(t, batch);
}

proof fn lemma_insert_preserves_unique(s: Seq<ArticleView>, a: ArticleView)
    requires
        unique_urls(s),
    ensures
        unique_urls(spec_insert_if_absent(s, a)),
{
    if !contains_url(s, a.url) {
        let t = s.push(a);
        assert forall|i: int, j: int| 0 <= i < j < t.len() implies t[i].url != t[j].url by {
            if j == s.len() {
                assert(t[i] == s[i]);
            }
        }
    }
}

/// Duplicate-safe ingestion never breaks the store's uniqueness invariant:
/// a store with at most one article per URL still has at most one article
/// per URL after ingesting any batch.
pub proof fn lemma_ingest_preserves_unique_urls(s: Seq<ArticleView>, batch: Seq<ArticleView>)
    requires
        unique_urls(s),
    ensures
        unique_urls(spec_ingest(s, batch)),
    decreases batch.len(),
{
    if batch.len() > 0 {
        lemma_insert_preserves_unique(s, batch[0]);
        lemma_ingest_preserves_unique_urls(spec_insert_if_absent(s, batch[0]), batch.drop_first());
    }
}

proof fn lemma_ingest_snoc(s: Seq<ArticleView>, batch: Seq<ArticleView>, a: ArticleView)
    ensures
        spec_ingest(s, batch.push(a)) == spec_insert_if_absent(spec_ingest(s, batch), a),
    decreases batch.len(),
{
    let b1 = batch.push(a);
    if batch.len() == 0 {
        assert(b1[0] == a);
        assert(b1.drop_first() =~= Seq::<ArticleView>::empty());
        assert(spec_ingest(s, b1) == spec_ingest(spec_insert_if_absent(s, a), b1.drop_first()));
        assert(spec_ingest(spec_insert_if_absent(s, a), b1.drop_first()) == spec_insert_if_absent(
            s,
            a,
        ));
    } else {
        assert(b1[0] == batch[0]);
        assert(b1.drop_first() =~= batch.drop_first().push(a));
        let s1 = spec_insert_if_absent(s, batch[0]);
        assert(spec_ingest(s, b1) == spec_ingest(s1, b1.drop_first()));
        lemma_ingest_snoc(s1, batch.drop_first(), a);
        assert(spec_ingest(s, batch) == spec_ingest(s1, batch.drop_first()));
    }
}

/// An in-memory article store that keeps at most one article per source URL.
#[derive(Debug)]
pub struct ArticleStore {
    articles: Vec<Article>,
}

impl View for ArticleStore {
    type V = Seq<ArticleView>;

    closed spec fn view(&self) -> Seq<ArticleView> {
        self.articles@.map_values(|a: Article| a@)
    }
}

impl ArticleStore {
    /// The store's invariant: no two stored articles share a source URL.
    pub open spec fn wf(&self) -> bool {
        unique_urls(self@)
    }

    /// An empty store.
    pub fn new() -> (s: Self)
        ensures
            s@ == Seq::<ArticleView>::empty(),
            s.wf(),
    {
        let s = ArticleStore { articles: Vec::new() };
        proof {
            assert(s@ =~= Seq::<ArticleView>::empty());
        }
        s
    }

    /// How many articles the store holds.
    pub fn len(&self) -> (n: usize)
        ensures
            n == self@.len(),
    {
        self.articles.len()
    }

    /// The stored article at position `k`, in insertion order.
    pub fn get(&self, k: usize) -> (a: &Article)
        requires
            k < self@.len(),
        ensures
            a@ == self@[k as int],
    {
        &self.articles[k]
    }

    /// Whether some stored article carries the URL `u`.
    pub fn has_url(&self, u: &String) -> (r: bool)
        ensures
            r == contains_url(self@, u@),
    {
        let n = self.articles.len();
        for k in 0..n
            invariant
                n == self@.len(),
                forall|i: int| 0 <= i < k ==> self@[i].url != u@,
            decreases n - k,
        {
            if self.articles[k].url == *u {
                proof {
                    assert(self@[k as int].url == u@);
                }
                return true;
            }
            proof {
                assert(self@[k as int].url != u@);
            }
        }
        proof {
            assert(forall|i: int| 0 <= i < self@.len() ==> self@[i].url != u@);
        }
        false
    }

    /// Insert `article` exactly when no stored article carries its URL; a
    /// URL conflict is a successful no-op, never an error.
    pub fn insert_if_absent(&mut self, article: Article) -> (inserted: bool)
        ensures
            inserted == !contains_url(old(self)@, article@.url),
            final(self)@ == spec_insert_if_absent(old(self)@, article@),
            old(self).wf() ==> final(self).wf(),
    {
        proof {
            if old(self).wf() {
                lemma_insert_preserves_unique(old(self)@, article@);
            }
        }
        if self.has_url(&article.url) {
            false
        } else {
            let ghost pre = self@;
            self.articles.push(article);
            proof {
                assert(self@ =~= pre.push(article@));
            }
            true
        }
    }

    /// Normalize a fetched document against its owning feed and ingest every
    /// resulting article with a duplicate-safe insert, in document order.
    /// Returns how many articles were actually new.
    pub fn ingest(&mut self, feed: &Feed, document: &RawDocument, fallback: i64) -> (inserted:
        usize)
        ensures
            final(self)@ == spec_ingest(
                old(self)@,
                spec_normalize(feed@.id, document@, fallback),
            ),
            final(self)@.len() == old(self)@.len() + inserted,
            old(self).wf() ==> final(self).wf(),
    {
        let ghost batch = spec_normalize(feed@.id, document@, fallback);
        let articles = feed_parser(feed, document, fallback);
        let mut count: usize = 0;
        let n = articles.len();
        for k in 0..n
            invariant
                n == batch.len(),
                n == articles@.len(),
                forall|i: int| 0 <= i < n ==> articles@[i]@ == batch[i],
                self@ == spec_ingest(old(self)@, batch.take(k as int)),
                self@.len() == old(self)@.len() + count,
                count <= k,
                old(self).wf() ==> self.wf(),
            decreases n - k,
        {
            let article = articles[k].clone();
            proof {
                lemma_ingest_snoc(old(self)@, batch.take(k as int), batch[k as int]);
                assert(batch.take(k as int).push(batch[k as int]) =~= batch.take(k + 1));
            }
            let added = self.insert_if_absent(article);
            if added {
                count += 1;
            }
        }
        proof {
            assert(batch.take(n as int) =~= batch);
        }
        count
    }
}

} // verus!
