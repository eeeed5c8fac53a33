//! A dynamic-DNS reconciliation engine for the Porkbun DNS API.
//!
//! The library holds the verified core: record and parameter types, the
//! create-or-edit decision protocol, response parsing, change detection
//! against a cache of last-applied address sets, and the per-tick update
//! plan.  Network transport, the HTTP status surface and process wiring
//! live outside the library.

pub mod cache;
pub mod config;
pub mod error;
pub mod json;
pub mod model;
pub mod net;
pub mod protocol;
pub mod reconcile;
pub mod record;
pub mod request;
pub mod response;
pub mod text;
