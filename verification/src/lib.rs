//! A log-shipping pipeline: many source adapters normalise what they read into
//! one record shape, a bounded queue carries the records to a batching
//! forwarder, and a downstream processor validates each batch and relays it to
//! storage.

pub mod codec;
pub mod collector;
pub mod json;
pub mod models;
pub mod processor;
pub mod queue;
pub mod text;
pub mod wire;
