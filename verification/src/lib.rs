//! Watches a list of web domains: which addresses are watched, what a ping
//! of one of them records, and how the results reach Kafka.
pub mod bindings;
pub mod kafka;
pub mod span;
pub mod domains;
pub mod watch;
pub mod daemon;
