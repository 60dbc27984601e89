//! The article listing query text.
//!
//! The REST layer outside the library reads articles through one SQL query
//! whose text depends on four optional filters. Choosing and ordering the
//! clauses is decided here; the caller hands each numeric or identifier
//! filter in already rendered as text and runs the finished query.

use vstd::prelude::*;
use vstd::string::StringExecFns;

verus! {

/// The view of an optional borrowed text.
pub open spec fn opt_text_view(o: Option<&str>) -> Option<Seq<char>> {
    match o {
        Some(v) => Some(v@),
        None => None,
    }
}

/// The text of the article listing query for the given filters: a base
/// clause that is always true, then one clause per present filter, in the
/// fixed order feed, read flag, limit, offset. `unread_only` asks for unread
/// articles, so it filters on the read flag's negation.
pub open spec fn spec_article_query(
    feed_id: Option<Seq<char>>,
    unread_only: Option<bool>,
    limit: Option<Seq<char>>,
    offset: Option<Seq<char>>,
) -> Seq<char> {
    " SELECT * FROM article where 1=1 "@ + (match feed_id {
        Some(v) => " and feed_id = '"@ + v + "'"@,
        None => Seq::empty(),
    }) + (match unread_only {
        Some(u) => " and read = "@ + (if u {
            "false"@
        } else {
            "true"@
        }),
        None => Seq::empty(),
    }) + (match limit {
        Some(v) => " limit "@ + v,
        None => Seq::empty(),
    }) + (match offset {
        Some(v) => " offset "@ + v,
        None => Seq::empty(),
    })
}

/// Build the article listing query for the given filters, exactly as
/// `spec_article_query` lays it out.
pub fn article_query_sql(
    feed_id: Option<&str>,
    unread_only: Option<bool>,
    limit: Option<&str>,
    offset: Option<&str>,
) -> (q: String)
    ensures
        q@ == spec_article_query(
            opt_text_view(feed_id),
            unread_only,
            opt_text_view(limit),
            opt_text_view(offset),
        ),
{
    let mut q = String::new();
    q.append(" SELECT * FROM article where 1=1 ");
    match feed_id {
        Some(v) => {
            q.append(" and feed_id = '");
            q.append(v);
            q.append("'");
        },
        None => {},
    }
    match unread_only {
        Some(u) => {
            q.append(" and read = ");
            if u {
                q.append("false");
            } else {
                q.append("true");
            }
        },
        None => {},
    }
    match limit {
        Some(v) => {
            q.append(" limit ");
            q.append(v);
        },
        None => {},
    }
    match offset {
        Some(v) => {
            q.append(" offset ");
            q.append(v);
        },
        None => {},
    }
    proof {
        assert(q@ =~= spec_article_query(
            opt_text_view(feed_id),
            unread_only,
            opt_text_view(limit),
            opt_text_view(offset),
        ));
    }
    q
}

} // verus!
