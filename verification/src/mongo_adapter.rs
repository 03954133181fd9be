//! The shape in which a cached response is stored in MongoDB, and the
//! settings of the MongoDB store.

use vstd::prelude::*;
use vstd::string::*;
use crate::headers::Headers;
use crate::store::CachedResponse;

verus! {

/// What is needed to connect to MongoDB.
#[derive(Debug, Clone)]
pub struct MongoAdapterConfig {
    /// The full connection string.
    pub connection_uri: String,
    /// The database that holds the cache collection.
    pub database: String,
    /// The collection of cached responses.
    pub collection: String,
    /// How long entries are kept, in seconds; `None` keeps them forever.
    pub ttl_seconds: Option<u32>,
}

impl Default for MongoAdapterConfig {
    /// A local server, database `cheap_api`, collection `response_cache`,
    /// entries kept forever.
    fn default() -> (c: Self)
        ensures
            c.connection_uri@ == "mongodb://localhost:27017"@,
            c.database@ == "cheap_api"@,
            c.collection@ == "response_cache"@,
            c.ttl_seconds is None,
    {
        MongoAdapterConfig {
            connection_uri: String::from_str("mongodb://localhost:27017"),
            database: String::from_str("cheap_api"),
            collection: String::from_str("response_cache"),
            ttl_seconds: None,
        }
    }
}

/// A stored document: the cache key as `_id`, and the save time as a BSON
/// date, which counts milliseconds.
#[derive(Debug)]
pub struct CacheDocument {
    pub id: String,
    pub status: u16,
    pub headers: Headers,
    pub body: String,
    /// The save time in milliseconds since the Unix epoch.
    pub cached_at_millis: i64,
}

/// The `i64` that `x as i64` gives: the same bits read as two's complement.
pub open spec fn as_i64(x: u64) -> int {
    if x <= i64::MAX {
        x as int
    } else {
        x - 0x1_0000_0000_0000_0000
    }
}

/// A number clamped into the range of `i64`, as `saturating_mul` does.
pub open spec fn saturate_i64(v: int) -> int {
    if v > i64::MAX {
        i64::MAX as int
    } else if v < i64::MIN {
        i64::MIN as int
    } else {
        v
    }
}

/// Unix seconds as the milliseconds stored: `(s as i64).saturating_mul(1000)`.
pub open spec fn millis_of_seconds(s: u64) -> int {
    saturate_i64(as_i64(s) * 1000)
}

/// Stored milliseconds as Unix seconds: whole seconds, and 0 for a time
/// before the epoch.
pub open spec fn seconds_of_millis(ms: i64) -> int {
    if ms < 0 {
        0
    } else {
        ms / 1000
    }
}

impl CacheDocument {
    /// The document stored for `r` under the cache key `key`.
    pub fn from_entry(key: &str, r: &CachedResponse) -> (d: CacheDocument)
        ensures
            d.id@ == key@,
            d.status == r.status,
            d.headers@ == r.headers@,
            d.body@ == r.body@,
            d.cached_at_millis == millis_of_seconds(r.cached_at),
    {
        let secs: u64 = r.cached_at;
        let signed: i64 = secs as i64;
        assert(secs <= 0x7fff_ffff_ffff_ffffu64 ==> signed == secs) by (bit_vector)
            requires
                signed == secs as i64,
        ;
        assert(secs > 0x7fff_ffff_ffff_ffffu64 ==> signed == secs - 0x1_0000_0000_0000_0000)
            by (bit_vector)
            requires
                signed == secs as i64,
        ;
        let millis: i64 = match signed.checked_mul(1000) {
            Some(m) => m,
            None => if signed > 0 {
                i64::MAX
            } else {
                i64::MIN
            },
        };
        CacheDocument {
            id: key.to_owned(),
            status: r.status,
            headers: r.headers.clone(),
            body: r.body.clone(),
            cached_at_millis: millis,
        }
    }
}

/// The response that a stored document holds.
pub open spec fn stored_response(d: CacheDocument) -> CachedResponse {
    CachedResponse {
        status: d.status,
        headers: d.headers,
        body: d.body,
        cached_at: seconds_of_millis(d.cached_at_millis) as u64,
    }
}

impl vstd::std_specs::convert::FromSpecImpl<CacheDocument> for CachedResponse {
    open spec fn obeys_from_spec() -> bool {
        true
    }

    open spec fn from_spec(d: CacheDocument) -> CachedResponse {
        stored_response(d)
    }
}

impl From<CacheDocument> for CachedResponse {
    /// The response a stored document holds, its time brought back to whole
    /// Unix seconds (0 for a time before the epoch).
    fn from(d: CacheDocument) -> (r: CachedResponse) {
        let cached_at: u64 = if d.cached_at_millis < 0 {
            0
        } else {
            (d.cached_at_millis / 1000) as u64
        };
        CachedResponse { status: d.status, headers: d.headers, body: d.body, cached_at }
    }
}

/// Saving then loading gives the response back: the document stored for a
/// response turns back into one with the same status, headers, body and save
/// time, for any save time up to `i64::MAX / 1000` seconds (past that the
/// milliseconds saturate).
pub proof fn lemma_document_round_trip(key: Seq<char>, r: CachedResponse, d: CacheDocument)
    requires
        d.id@ == key,
        d.status == r.status,
        d.headers@ == r.headers@,
        d.body@ == r.body@,
        d.cached_at_millis == millis_of_seconds(r.cached_at),
        r.cached_at <= 9_223_372_036_854_775,
    ensures
        stored_response(d).status == r.status,
        stored_response(d).headers@ == r.headers@,
        stored_response(d).body@ == r.body@,
        stored_response(d).cached_at == r.cached_at,
{
    assert(as_i64(r.cached_at) * 1000 <= i64::MAX);
}

} // verus!
