//! Core of a presence-tracking service: a bounded ingestion queue handing
//! event records to a single writer, an append-only log store, an identity
//! store resolving subject ids to display names, and a filtered, paginated
//! query engine over the log.

pub mod identity;
pub mod query;
pub mod queue;
pub mod record;
pub mod render;
pub mod sql;
pub mod store;
