//! What the cache keeps for one request.

use vstd::prelude::*;
use crate::headers::Headers;

verus! {

/// A saved HTTP response: everything needed to replay it later without
/// calling the API again.
#[derive(Debug, Clone)]
pub struct CachedResponse {
    /// The HTTP status, e.g. 200 or 404.
    pub status: u16,
    /// The response headers.
    pub headers: Headers,
    /// The response body.
    pub body: String,
    /// When it was saved, in Unix seconds.
    pub cached_at: u64,
}

} // verus!
