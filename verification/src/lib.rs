//! A verified core for a static content server with derived-asset caching.
//!
//! The library contains the request router, path and cache-key computation,
//! directory-listing rendering, MIME resolution, response construction and a
//! request state machine.  All filesystem access, subprocess invocation and
//! HTTP transport are performed by the surrounding application, which drives
//! the state machine one event at a time.

pub mod cache;
pub mod laws;
pub mod listing;
pub mod machine;
pub mod paths;
pub mod response;
pub mod routing;
pub mod server_env;
pub mod strutil;
