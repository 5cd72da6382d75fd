//! A verified core for an embedded-script HTTP front end.
//!
//! The crate models the request execution bridge of a server that drives a
//! synchronous, single-threaded-per-execution script engine from an
//! asynchronous HTTP connection layer: resolving a request URI to a script
//! and residual path, owning the per-request execution context, implementing
//! the callback contract the engine expects from its host, and streaming the
//! response back, either fully buffered or incrementally.

pub mod api_version;
pub mod bytes_util;
pub mod config;
pub mod context;
pub mod coordinator;
pub mod error;
pub mod http;
pub mod php_info;
pub mod resolver;
pub mod sapi;
pub mod unbound_channel;
pub mod variables;
