//! A stateless HTTP front-end gateway engine.
//!
//! The crate holds the request-forwarding logic of a small gateway: it
//! resolves runtime configuration with fallback to defaults, matches a
//! request against a static route table, binds and type-checks query
//! parameters, deterministically builds the backend URL, and maps every
//! outcome of the outbound call to a final HTTP response. The surrounding
//! process (the HTTP server and client, environment access, logging) lives
//! outside this crate and exchanges plain values with it.

pub mod numeric;
pub mod query;
pub mod routes;
pub mod binder;
pub mod forward;
pub mod config;
pub mod handlers;
pub mod dispatch;
pub mod laws;
