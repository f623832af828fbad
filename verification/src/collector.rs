//! The collector: the source adapters, the ingress endpoint and the batching
//! forwarder.

pub mod awscloudwatch;
pub mod azurelog;
pub mod config;
pub mod docker_ingestion;
pub mod file_ingestion;
pub mod forwarder;
pub mod googlelog;
pub mod http_handler;
pub mod kafka_ingestion;
pub mod syslog_ingestion;
pub mod tcp_ingestion;
pub mod udp_ingestion;
