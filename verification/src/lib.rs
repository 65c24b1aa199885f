//! A minimal HTTP-like server library: request-line parsing, routing with a
//! static-file fallback chain, SPA rewriting, response serialization, and a
//! model of the worker pool's task queue.

pub mod text;
pub mod method;
pub mod content_type;
pub mod status;
pub mod request;
pub mod response;
pub mod serwer;
pub mod spa_serwer;
pub mod threadpool;
