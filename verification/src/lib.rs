//! Verified core of a command-line client for a REST task-management API.
//!
//! The crate models the client's algorithmic heart — deterministic cache
//! keys, the two-tier response cache with TTL expiry, retry with
//! exponential backoff, rate-limit telemetry, response-envelope
//! validation, and offset-token pagination — as plain data and verified
//! state machines, together with the domain models and request builders
//! the commands are made of. Network, file-system, clock and terminal
//! plumbing live outside the library and drive these functions.

pub mod auth;
pub mod backoff;
pub mod cache;
pub mod cachekey;
pub mod client;
pub mod config;
pub mod envelope;
pub mod errors;
pub mod executor;
pub mod fields;
pub mod filters;
pub mod models;
pub mod num;
pub mod options;
pub mod output;
pub mod pagination;
pub mod ratelimit;
pub mod recent;
pub mod sorting;
pub mod strlist;
pub mod templates;
pub mod text;
pub mod textutil;
