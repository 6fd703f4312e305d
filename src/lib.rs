//! `Cache-Control` assignment by response status.
//!
//! The library decides which cache directive a response should carry from
//! its status code, a directive hinted on the request and a configured
//! default, and holds the middleware's state: its configured default and the
//! inner handler that is handed off afresh to each call.
pub mod directive;
pub mod laws;
pub mod middleware;
pub mod policy;
