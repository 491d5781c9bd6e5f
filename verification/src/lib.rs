//! A minimal submission service, taken apart into its verified pieces:
//! reading the startup configuration from the arguments, deciding where a
//! request is routed, appending submissions to the store over SQLite, and
//! mapping storage outcomes to HTTP replies.

pub mod config;
pub mod handler;
pub mod laws;
pub mod router;
pub mod store;
