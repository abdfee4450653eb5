//! Institutional-investor trading statistics from the exchange's JSON feed:
//! coercion of the feed's text cells, decoding of its rows into typed
//! records, and the query parameters that select a report.
pub mod args;
pub mod coerce;
pub mod date;
pub mod errors;
pub mod feed;
pub mod schema;
