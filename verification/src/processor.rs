//! The processor: the downstream service that takes compressed batches,
//! validates them and relays them to storage.

pub mod config;
pub mod forwarder;
pub mod http_handler;
pub mod processor;
