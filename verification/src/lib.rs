//! Aggregation of combat-log events into encounters, sanitized snapshots of
//! the live encounter, and the record store behind historical lookups.

pub mod aggregator;
pub mod event;
pub mod index;
pub mod json;
pub mod metrics;
pub mod model;
pub mod parse;
pub mod query;
pub mod rank;
pub mod rows;
pub mod snapshot;
pub mod store;
pub mod table;
pub mod text;
