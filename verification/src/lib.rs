//! An append-only launch recorder: it stores one immutable record per token
//! launch (who launched, which mint, when) in a caller-chosen storage slot,
//! and publishes a matching event for external indexers.

pub mod launch;
pub mod recorder;
pub mod store;
