//! Feed ingestion pipeline for an RSS aggregator.
//!
//! The library holds the verified core of the aggregator: the data model for
//! feeds and articles, the normalizer that turns a parsed syndication
//! document into canonical article records, an article store with a
//! duplicate-safe insert keyed on the article's source URL, the scheduler
//! state machine that drives the periodic fetch-normalize-persist cycle, and
//! the builder for the article listing query. Network and database I/O live
//! outside the library and drive the state machine through plain commands and
//! events.

pub mod model;
pub mod parser;
pub mod query;
pub mod store;
pub mod worker;
