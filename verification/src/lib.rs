//! Core of a caching layer for HTTP API calls.
//!
//! A request is hashed into a cache key; a cached response is replayed when
//! the store holds one, otherwise the request is forwarded upstream and a
//! cacheable answer is saved. The decisions are made here; the I/O that
//! surrounds them (the store, the HTTP client, the clock) is driven by the
//! caller through the state machine of [`interceptor`].

pub mod error;
pub mod hasher;
pub mod headers;
pub mod interceptor;
pub mod mongo_adapter;
pub mod store;
pub mod upstream;
pub mod usage;

pub use hasher::compute_cache_key;
pub use error::CheapApiError;
pub use interceptor::{InterceptRequest, InterceptResponse, Interceptor, InterceptorConfig};
pub use mongo_adapter::MongoAdapterConfig;
pub use store::CachedResponse;
