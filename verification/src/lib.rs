//! A request-execution core for generated cloud-service clients: an ordered
//! policy pipeline with bounded retry, a single-flight token cache, a
//! response decoder, and a continuation-token pagination cursor.

pub mod blob;
pub mod catalog;
pub mod config;
pub mod datalake;
pub mod decode;
pub mod errors;
pub mod headers;
pub mod message;
pub mod operations;
pub mod outside;
pub mod paging;
pub mod pipeline;
pub mod requrl;
pub mod retry;
pub mod strutil;
pub mod token_cache;
