use albatross::query::article_query_sql;

#[test]
fn no_filters_yields_the_base_query() {
    let q = article_query_sql(None, None, None, None);
    assert_eq!(q, " SELECT * FROM article where 1=1 ");
}

#[test]
fn feed_filter_is_quoted() {
    let q = article_query_sql(
        Some("8d7f94b2-6f3a-4d0e-9c1b-2a5e8f0d4c6a"),
        None,
        None,
        None,
    );
    assert_eq!(
        q,
        " SELECT * FROM article where 1=1  and feed_id = '8d7f94b2-6f3a-4d0e-9c1b-2a5e8f0d4c6a'"
    );
}

#[test]
fn unread_only_filters_on_the_negated_read_flag() {
    let q = article_query_sql(None, Some(true), None, None);
    assert_eq!(q, " SELECT * FROM article where 1=1  and read = false");
    let q = article_query_sql(None, Some(false), None, None);
    assert_eq!(q, " SELECT * FROM article where 1=1  and read = true");
}

#[test]
fn all_filters_appear_in_fixed_order() {
    let q = article_query_sql(Some("abc"), Some(true), Some("10"), Some("5"));
    assert_eq!(
        q,
        " SELECT * FROM article where 1=1  and feed_id = 'abc' and read = false limit 10 offset 5"
    );
}

#[test]
fn limit_and_offset_append_verbatim() {
    let q = article_query_sql(None, None, Some("25"), Some("50"));
    assert_eq!(q, " SELECT * FROM article where 1=1  limit 25 offset 50");
}
