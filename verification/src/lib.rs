//! rproxy: the request-handling logic of a small reverse proxy, and the
//! planning logic of its benchmark suite.

pub mod sha1;
pub mod text;
pub mod base64;
pub mod headers;
pub mod error;
pub mod config;
pub mod proxy;
pub mod websocket;
pub mod globs;
pub mod middleware;
pub mod server;
pub mod bench;
