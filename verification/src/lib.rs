//! Verified core of a read-only client for the Coinbase Pro public market-data
//! REST API.
//!
//! The library builds requests, assembles URLs and decides, step by step,
//! what a call does next. It performs no I/O: a driver sends the requests,
//! waits on the rate limiter and reports what happened.

pub mod client;
pub mod config;
pub mod decimal;
pub mod fetch;
pub mod instant;
pub mod pacing;
pub mod request;
pub mod urls;

pub use client::CoinbasePublicClient;
pub use config::ClientConfig;
pub use config::CoinbaseClientBuilder;
pub use request::Granularity;
pub use request::OBLevel;
