//! Activity reporter: turns observed window and media snapshots into a
//! deduplicated, ordered stream of protocol messages, drives a reconnecting
//! connection with two-tier backoff, and remembers uploaded artwork.

pub mod protocol;
pub mod fingerprint;
pub mod connection;
pub mod snapshot;
pub mod artwork;
pub mod reporter;
pub mod laws;
pub mod monitor;
pub mod media;
pub mod config;
pub mod window;
