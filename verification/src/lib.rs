//! Request-level metrics for JSON-RPC clients, and the connection settings of
//! a Cosmos chain.

pub mod block_getter;
pub mod client;
pub mod config;
pub mod cosmos;
pub mod error;
pub mod labels;
pub mod metrics;
