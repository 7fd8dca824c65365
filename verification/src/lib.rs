//! Fetching of a hierarchical media catalog behind a bearer token:
//! the token lifecycle (acquisition, caching, single-flight refresh under
//! concurrent use) and a fan-out orchestrator that resolves a collection
//! into items and fetches each one while isolating per-item failure.

pub mod auth;
pub mod catalog;
pub mod converter;
pub mod error;
pub mod event;
pub mod fanout;
pub mod format;
mod http;
pub mod jsonx;
pub mod models;
pub mod resolver;
pub mod urltype;
pub mod util;
