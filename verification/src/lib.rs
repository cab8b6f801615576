//! Community-curation engine: watches reaction tallies on chat messages,
//! decides when a message has earned enough endorsements to be promoted to a
//! curated feed, synthesizes a durable copy of the message, and publishes or
//! updates it exactly once regardless of repeated or out-of-order triggers.

pub mod config;
pub mod ledger;
pub mod numeral;
pub mod persist;
pub mod pipeline;
pub mod schedule;
pub mod snapshot;
pub mod synthesize;
pub mod threshold;
