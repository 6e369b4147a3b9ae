//! Request-execution engine of an API-testing tool.
//!
//! Given a declarative description of an HTTP request (method, URL, headers,
//! query parameters, body, authentication, transport policy, timeout), the
//! library substitutes `{{name}}` variables, builds the wire-level request,
//! classifies and truncates the response body, and coordinates cancellation
//! and timeout so that every execution ends in exactly one terminal outcome.
//!
//! Network I/O itself (sending the request, awaiting the response) is left to
//! the embedding application; everything that decides or computes lives here.

pub mod classify;
pub mod dispatch;
pub mod github;
pub mod models;
pub mod pool;
pub mod registry;
pub mod sanitize;
pub mod subst;
pub mod sync;
pub mod text;
pub mod wire;
