//! Verified core of the protin paste service: configuration assembly,
//! request-rate arithmetic, client-key selection, paste bookkeeping,
//! storage-response summaries and HTTP reply decisions.

pub mod decimal;
pub mod paste;
pub mod storage;
pub mod config;
pub mod ratelimiter;
pub mod headers;
pub mod routes;

pub use crate::config::Config;
