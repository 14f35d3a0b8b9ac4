//! Verified core of the glados Portal network monitor: audit filters and
//! statistics, the JSON-RPC client state, routing-table distances, and the
//! bookkeeping of failed content transfers.

pub mod time;
pub mod stats;
pub mod distance;
pub mod routing;
pub mod jsonrpc;
pub mod failures;
pub mod config;
