//! Read-only client core for a versioned, link-driven REST API: query
//! encoding, pagination cursors, link lookup, request composition and
//! response classification.

pub mod error;
pub mod http;
pub mod links;
pub mod model;
pub mod paging;
pub mod param;
pub mod query;
