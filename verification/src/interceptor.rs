//! The interception flow: look the request up in the cache, forward it on a
//! miss, and save the answer when it is worth keeping.

use vstd::prelude::*;
use vstd::string::*;
use vstd::utf8::*;
use crate::error::CheapApiError;
use crate::hasher::{ascii_upper, cache_key, compute_cache_key, lemma_cache_key_ignores_method_case};
use crate::headers::Headers;
use crate::store::CachedResponse;
use crate::upstream::{prepare_upstream, prepared_as, UpstreamRequest};
use crate::usage::UsageSource;

verus! {

/// A request handed over by a language binding.
#[derive(Debug, Clone)]
pub struct InterceptRequest {
    pub url: String,
    pub method: String,
    pub headers: Headers,
    pub body: String,
}

/// The response handed back, from the cache or from the upstream API.
#[derive(Debug, Clone)]
pub struct InterceptResponse {
    pub status: u16,
    pub headers: Headers,
    pub body: String,
    /// True when the response was replayed from the cache.
    pub from_cache: bool,
    /// The key the request was cached under.
    pub cache_key: String,
}

/// Settings of an interceptor.
#[derive(Debug, Clone)]
pub struct InterceptorConfig {
    /// Whether responses outside 2xx are cached too.
    pub cache_errors: bool,
    /// Responses with a larger body (in bytes) are not cached.
    pub max_cacheable_body_bytes: usize,
}

/// The largest body cached by default: 10 MiB.
pub const DEFAULT_MAX_CACHEABLE_BODY_BYTES: usize = 10485760;

impl Default for InterceptorConfig {
    /// Error responses are not cached, nor bodies over 10 MiB.
    fn default() -> (c: Self)
        ensures
            !c.cache_errors,
            c.max_cacheable_body_bytes == DEFAULT_MAX_CACHEABLE_BODY_BYTES,
    {
        InterceptorConfig {
            cache_errors: false,
            max_cacheable_body_bytes: DEFAULT_MAX_CACHEABLE_BODY_BYTES,
        }
    }
}

/// A response is worth caching when its body is within the limit and it is a
/// success (2xx), unless error responses are cached too.
pub open spec fn worth_caching(config: InterceptorConfig, status: u16, body_len: int) -> bool {
    &&& body_len <= config.max_cacheable_body_bytes
    &&& (config.cache_errors || (200 <= status && status < 300))
}

/// What is cached: a body over the limit never is; with error caching off,
/// exactly the 2xx answers within the limit are, so no 1xx, 3xx, 4xx or 5xx
/// answer is; with error caching on, every answer within the limit is.
pub proof fn lemma_what_is_worth_caching(config: InterceptorConfig, status: u16, body_len: int)
    ensures
        body_len > config.max_cacheable_body_bytes ==> !worth_caching(config, status, body_len),
        !config.cache_errors ==> (worth_caching(config, status, body_len) <==> (200 <= status <= 299
            && body_len <= config.max_cacheable_body_bytes)),
        !config.cache_errors && (status < 200 || status >= 300) ==> !worth_caching(
            config,
            status,
            body_len,
        ),
        config.cache_errors ==> (worth_caching(config, status, body_len) <==> body_len
            <= config.max_cacheable_body_bytes),
{
}

/// Makes the caching decisions for requests; the store, the HTTP client and
/// the clock are driven by its caller (see `step`).
#[derive(Clone)]
pub struct Interceptor {
    pub config: InterceptorConfig,
}

impl Interceptor {
    /// An interceptor with the given settings.
    pub fn new(config: InterceptorConfig) -> (ix: Self)
        ensures
            ix.config == config,
    {
        Interceptor { config }
    }

    /// Whether a response with this status and body length (in bytes) should
    /// be saved to the cache.
    pub fn should_cache(&self, status: u16, body_len: usize) -> (b: bool)
        ensures
            b == worth_caching(self.config, status, body_len as int),
            b ==> body_len <= self.config.max_cacheable_body_bytes,
            !self.config.cache_errors ==> (b <==> (200 <= status <= 299
                && body_len <= self.config.max_cacheable_body_bytes)),
    {
        if body_len > self.config.max_cacheable_body_bytes {
            return false;
        }
        if !self.config.cache_errors && !(200 <= status && status < 300) {
            return false;
        }
        true
    }
}

/// The cache key of a request: that of its URL, method and body.
pub open spec fn request_key(req: InterceptRequest) -> Seq<char> {
    cache_key(encode_utf8(req.url@), encode_utf8(req.method@), encode_utf8(req.body@))
}

/// Where an interception stands between two outside operations.
pub enum InterceptState {
    /// The store is being asked for the request's key.
    AwaitingLookup { request: InterceptRequest, cache_key: String },
    /// The request is being sent to the upstream API.
    AwaitingUpstream { cache_key: String },
    /// The upstream answer is worth saving; the time is being read.
    AwaitingClock { cache_key: String, live: InterceptResponse },
    /// The upstream answer is being saved.
    AwaitingSave { cache_key: String, live: InterceptResponse },
    /// The answer has been handed out.
    Finished,
}

/// What an outside operation gave back.
pub enum InterceptEvent {
    /// The store's answer for the key: a hit, a miss, or an error.
    Looked(Result<Option<CachedResponse>, CheapApiError>),
    /// The upstream API's answer (its `from_cache` and `cache_key` are not read).
    Answered(Result<InterceptResponse, CheapApiError>),
    /// The current time, in Unix seconds.
    Clock(u64),
    /// Whether the save succeeded (a failure is not fatal).
    Saved(Result<(), CheapApiError>),
}

/// What the caller has to do next.
pub enum InterceptAction {
    /// Ask the store for this key.
    LookUp { key: String },
    /// Send this request upstream.
    Forward(UpstreamRequest),
    /// Read the clock.
    ReadClock,
    /// Save this entry under this key.
    Save { key: String, entry: CachedResponse },
    /// Hand out this result; when a source is given, report the token usage
    /// of the response body as coming from it.
    Respond { result: Result<InterceptResponse, CheapApiError>, usage_source: Option<UsageSource> },
}

/// The event that each waiting state expects.
pub open spec fn accepts(state: InterceptState, event: InterceptEvent) -> bool {
    match state {
        InterceptState::AwaitingLookup { .. } => event is Looked,
        InterceptState::AwaitingUpstream { .. } => event is Answered,
        InterceptState::AwaitingClock { .. } => event is Clock,
        InterceptState::AwaitingSave { .. } => event is Saved,
        InterceptState::Finished => false,
    }
}

/// The state that waits for what an action asks the caller to do: a lookup
/// for a lookup, an upstream answer for a forward, the time for a clock
/// reading, the save's outcome for a save, and nothing once the result is
/// handed out.
pub open spec fn awaits(state: InterceptState, action: InterceptAction) -> bool {
    match action {
        InterceptAction::LookUp { .. } => state is AwaitingLookup,
        InterceptAction::Forward(_) => state is AwaitingUpstream,
        InterceptAction::ReadClock => state is AwaitingClock,
        InterceptAction::Save { .. } => state is AwaitingSave,
        InterceptAction::Respond { .. } => state is Finished,
    }
}

/// How many steps a state is at most from the end.
pub open spec fn steps_left(state: InterceptState) -> nat {
    match state {
        InterceptState::AwaitingLookup { .. } => 4,
        InterceptState::AwaitingUpstream { .. } => 3,
        InterceptState::AwaitingClock { .. } => 2,
        InterceptState::AwaitingSave { .. } => 1,
        InterceptState::Finished => 0,
    }
}

/// A byte string holds `needle` from index `i` on.
pub open spec fn occurs_at(hay: Seq<u8>, needle: Seq<u8>, i: int) -> bool {
    0 <= i && i + needle.len() <= hay.len() && hay.subrange(i, i + needle.len()) == needle
}

/// `needle` occurs somewhere in `hay`.
pub open spec fn bytes_contain(hay: Seq<u8>, needle: Seq<u8>) -> bool {
    exists|i: int| occurs_at(hay, needle, i)
}

/// An upstream answer that says the OpenAI quota is spent: status 429 with
/// `insufficient_quota` in the body.
pub open spec fn quota_exhausted(live: InterceptResponse) -> bool {
    live.status == 429 && bytes_contain(encode_utf8(live.body@), encode_utf8("insufficient_quota"@))
}

/// The stand-in answer given when the quota is spent: a 200 JSON reply whose
/// message says so, under the key `QUOTA_SHIELD_ACTIVE`.
pub open spec fn is_quota_shield(r: InterceptResponse) -> bool {
    &&& r.status == 200
    &&& r.headers@ == Map::<Seq<char>, Seq<char>>::empty().insert(
        "Content-Type"@,
        "application/json"@,
    )
    &&& r.body@ == QUOTA_SHIELD_BODY@
    &&& !r.from_cache
    &&& r.cache_key@ == "QUOTA_SHIELD_ACTIVE"@
}

/// The body of the quota stand-in answer.
pub const QUOTA_SHIELD_BODY: &'static str = "{\"choices\": [{\"message\": {\"role\": \"assistant\", \"content\": \"[QUOTA SHIELD] Your prompt was intercepted. OpenAI returned 429, but CheapAPI is keeping your app alive.\"}}]}";

/// A cached entry replayed under a key.
pub open spec fn replayed(c: CachedResponse, key: String) -> InterceptResponse {
    InterceptResponse {
        status: c.status,
        headers: c.headers,
        body: c.body,
        from_cache: true,
        cache_key: key,
    }
}

/// A live upstream answer handed out under a key.
pub open spec fn delivered(live: InterceptResponse, key: String) -> InterceptResponse {
    InterceptResponse {
        status: live.status,
        headers: live.headers,
        body: live.body,
        from_cache: false,
        cache_key: key,
    }
}

/// What one step does: the next state and action for a state and the event
/// it was waiting for.
pub open spec fn step_post(
    config: InterceptorConfig,
    state: InterceptState,
    event: InterceptEvent,
    next: InterceptState,
    action: InterceptAction,
) -> bool {
    match state {
        InterceptState::AwaitingLookup { request, cache_key } => match event {
            InterceptEvent::Looked(Err(e)) => next is Finished && action == (
            InterceptAction::Respond { result: Err(e), usage_source: None }),
            InterceptEvent::Looked(Ok(Some(c))) => next is Finished && action == (
            InterceptAction::Respond {
                result: Ok(replayed(c, cache_key)),
                usage_source: Some(UsageSource::Database),
            }),
            InterceptEvent::Looked(Ok(None)) => match action {
                InterceptAction::Forward(u) => next == (InterceptState::AwaitingUpstream {
                    cache_key,
                }) && prepared_as(request, Ok(u)),
                InterceptAction::Respond { result: Err(e), usage_source: None } => next is Finished
                    && prepared_as(request, Err(e)),
                _ => false,
            },
            _ => false,
        },
        InterceptState::AwaitingUpstream { cache_key } => match event {
            InterceptEvent::Answered(Err(e)) => next is Finished && action == (
            InterceptAction::Respond { result: Err(e), usage_source: None }),
            InterceptEvent::Answered(Ok(live)) => if quota_exhausted(live) {
                &&& next is Finished
                &&& action matches InterceptAction::Respond { result: Ok(r), usage_source: None }
                &&& is_quota_shield(r)
            } else if worth_caching(config, live.status, encode_utf8(live.body@).len() as int) {
                next == (InterceptState::AwaitingClock { cache_key, live }) && action
                    is ReadClock
            } else {
                next is Finished && action == (InterceptAction::Respond {
                    result: Ok(delivered(live, cache_key)),
                    usage_source: Some(UsageSource::Live),
                })
            },
            _ => false,
        },
        InterceptState::AwaitingClock { cache_key, live } => match event {
            InterceptEvent::Clock(now) => {
                &&& next == (InterceptState::AwaitingSave { cache_key, live })
                &&& action matches InterceptAction::Save { key, entry }
                &&& key == cache_key
                &&& entry.status == live.status
                &&& entry.headers@ == live.headers@
                &&& entry.body == live.body
                &&& entry.cached_at == now
            },
            _ => false,
        },
        InterceptState::AwaitingSave { cache_key, live } => match event {
            InterceptEvent::Saved(_) => next is Finished && action == (InterceptAction::Respond {
                result: Ok(delivered(live, cache_key)),
                usage_source: Some(UsageSource::Live),
            }),
            _ => false,
        },
        InterceptState::Finished => false,
    }
}

/// Whether `needle` occurs in `hay`.
fn contains_bytes(hay: &[u8], needle: &[u8]) -> (b: bool)
    ensures
        b == bytes_contain(hay@, needle@),
{
    let n = hay.len();
    let m = needle.len();
    if m > n {
        assert forall|i: int| !occurs_at(hay@, needle@, i) by {}
        return false;
    }
    let mut i: usize = 0;
    while i <= n - m
        invariant
            n == hay@.len(),
            m == needle@.len(),
            m <= n,
            0 <= i <= n - m + 1,
            forall|k: int| 0 <= k < i ==> !occurs_at(hay@, needle@, k),
        decreases n - m + 1 - i,
    {
        let mut j: usize = 0;
        let mut same = true;
        while j < m
            invariant
                n == hay@.len(),
                m == needle@.len(),
                i + m <= n,
                0 <= j <= m,
                same == (forall|k: int| 0 <= k < j ==> hay@[i + k] == needle@[k]),
            decreases m - j,
        {
            if hay[i + j] != needle[j] {
                same = false;
            }
            j = j + 1;
        }
        if same {
            assert(hay@.subrange(i as int, i + m) =~= needle@);
            assert(occurs_at(hay@, needle@, i as int));
            return true;
        }
        assert(!occurs_at(hay@, needle@, i as int)) by {
            let k = choose|k: int| 0 <= k < m && hay@[i + k] != needle@[k];
            if hay@.subrange(i as int, i + m) == needle@ {
                assert(hay@.subrange(i as int, i + m)[k] == hay@[i + k]);
            }
        }
        i = i + 1;
    }
    assert forall|k: int| !occurs_at(hay@, needle@, k) by {
        if 0 <= k && k + m <= n {
            assert(k < i);
        }
    }
    false
}

/// The stand-in answer for a spent quota.
fn quota_shield_response() -> (r: InterceptResponse)
    ensures
        is_quota_shield(r),
{
    let mut headers = Headers::new();
    headers.insert(String::from_str("Content-Type"), String::from_str("application/json"));
    InterceptResponse {
        status: 200,
        headers,
        body: String::from_str(QUOTA_SHIELD_BODY),
        from_cache: false,
        cache_key: String::from_str("QUOTA_SHIELD_ACTIVE"),
    }
}

impl Interceptor {
    /// Starts intercepting `request`: computes its cache key and asks for it
    /// to be looked up in the store.
    pub fn start(&self, request: InterceptRequest) -> (r: (InterceptState, InterceptAction))
        ensures
            r.0 matches InterceptState::AwaitingLookup { request: q, cache_key: k } && q == request
                && k@ == request_key(request) && r.1 == (InterceptAction::LookUp { key: k }),
            awaits(r.0, r.1),
    {
        let key = compute_cache_key(
            request.url.as_str(),
            request.method.as_str(),
            request.body.as_str().as_bytes(),
        );
        let lookup = key.clone();
        (InterceptState::AwaitingLookup { request, cache_key: key }, InterceptAction::LookUp {
            key: lookup,
        })
    }

    /// Takes one step: given the state and the event it was waiting for,
    /// returns the next state and what to do.
    ///
    /// On a store error the error is handed out; on a hit the cached
    /// response, marked as from the cache; on a miss the request is prepared
    /// and forwarded (a request that cannot be prepared fails). An upstream
    /// error is handed out; an answer saying the OpenAI quota is spent is
    /// replaced by a stand-in reply and not cached; an answer worth caching
    /// is stamped with the time and saved, and handed out whether or not the
    /// save succeeds; any other answer is handed out as it is.
    pub fn step(&self, state: InterceptState, event: InterceptEvent) -> (r: (
        InterceptState,
        InterceptAction,
    ))
        requires
            accepts(state, event),
        ensures
            step_post(self.config, state, event, r.0, r.1),
            awaits(r.0, r.1),
            steps_left(r.0) < steps_left(state),
    {
        match state {
            InterceptState::AwaitingLookup { request, cache_key } => match event {
                InterceptEvent::Looked(Err(e)) => (
                    InterceptState::Finished,
                    InterceptAction::Respond { result: Err(e), usage_source: None },
                ),
                InterceptEvent::Looked(Ok(Some(c))) => (
                    InterceptState::Finished,
                    InterceptAction::Respond {
                        result: Ok(
                            InterceptResponse {
                                status: c.status,
                                headers: c.headers,
                                body: c.body,
                                from_cache: true,
                                cache_key,
                            },
                        ),
                        usage_source: Some(UsageSource::Database),
                    },
                ),
                InterceptEvent::Looked(Ok(None)) => match prepare_upstream(&request) {
                    Ok(u) => (InterceptState::AwaitingUpstream { cache_key }, InterceptAction::Forward(u)),
                    Err(e) => (
                        InterceptState::Finished,
                        InterceptAction::Respond { result: Err(e), usage_source: None },
                    ),
                },
                _ => {
                    proof {
                        assert(false);
                    }
                    (InterceptState::Finished, InterceptAction::ReadClock)
                },
            },
            InterceptState::AwaitingUpstream { cache_key } => match event {
                InterceptEvent::Answered(Err(e)) => (
                    InterceptState::Finished,
                    InterceptAction::Respond { result: Err(e), usage_source: None },
                ),
                InterceptEvent::Answered(Ok(live)) => {
                    let body_bytes = live.body.as_str().as_bytes();
                    if live.status == 429 && contains_bytes(body_bytes, "insufficient_quota".as_bytes()) {
                        (
                            InterceptState::Finished,
                            InterceptAction::Respond {
                                result: Ok(quota_shield_response()),
                                usage_source: None,
                            },
                        )
                    } else if self.should_cache(live.status, body_bytes.len()) {
                        (InterceptState::AwaitingClock { cache_key, live }, InterceptAction::ReadClock)
                    } else {
                        (
                            InterceptState::Finished,
                            InterceptAction::Respond {
                                result: Ok(
                                    InterceptResponse {
                                        status: live.status,
                                        headers: live.headers,
                                        body: live.body,
                                        from_cache: false,
                                        cache_key,
                                    },
                                ),
                                usage_source: Some(UsageSource::Live),
                            },
                        )
                    }
                },
                _ => {
                    proof {
                        assert(false);
                    }
                    (InterceptState::Finished, InterceptAction::ReadClock)
                },
            },
            InterceptState::AwaitingClock { cache_key, live } => match event {
                InterceptEvent::Clock(now) => {
                    let entry = CachedResponse {
                        status: live.status,
                        headers: live.headers.clone(),
                        body: live.body.clone(),
                        cached_at: now,
                    };
                    let key = cache_key.clone();
                    (
                        InterceptState::AwaitingSave { cache_key, live },
                        InterceptAction::Save { key, entry },
                    )
                },
                _ => {
                    proof {
                        assert(false);
                    }
                    (InterceptState::Finished, InterceptAction::ReadClock)
                },
            },
            InterceptState::AwaitingSave { cache_key, live } => match event {
                InterceptEvent::Saved(_) => (
                    InterceptState::Finished,
                    InterceptAction::Respond {
                        result: Ok(
                            InterceptResponse {
                                status: live.status,
                                headers: live.headers,
                                body: live.body,
                                from_cache: false,
                                cache_key,
                            },
                        ),
                        usage_source: Some(UsageSource::Live),
                    },
                ),
                _ => {
                    proof {
                        assert(false);
                    }
                    (InterceptState::Finished, InterceptAction::ReadClock)
                },
            },
            InterceptState::Finished => {
                proof {
                    assert(false);
                }
                (InterceptState::Finished, InterceptAction::ReadClock)
            },
        }
    }
}

/// Requests with the same URL and body, whose methods are equal once ASCII
/// upper-cased, are looked up under the same key.
pub proof fn lemma_same_request_same_key(a: InterceptRequest, b: InterceptRequest)
    requires
        a.url@ == b.url@,
        a.body@ == b.body@,
        ascii_upper(encode_utf8(a.method@)) == ascii_upper(encode_utf8(b.method@)),
    ensures
        request_key(a) == request_key(b),
{
    lemma_cache_key_ignores_method_case(
        encode_utf8(a.url@),
        encode_utf8(a.method@),
        encode_utf8(b.method@),
        encode_utf8(a.body@),
    );
}

/// A saved answer is replayed: when the answer of a first call is saved, and
/// a later lookup under the same key gets back the entry that was saved, the
/// later call hands out, from the cache, the status, headers and body that
/// the first call handed out live, under the same key.
pub proof fn lemma_saved_answer_is_replayed(
    config: InterceptorConfig,
    key: String,
    live: InterceptResponse,
    now: u64,
    saving: InterceptState,
    save: InterceptAction,
    saved: Result<(), CheapApiError>,
    done: InterceptState,
    answer: InterceptAction,
    request: InterceptRequest,
    lookup_key: String,
    stored: CachedResponse,
    after: InterceptState,
    replay: InterceptAction,
)
    requires
        step_post(
            config,
            InterceptState::AwaitingClock { cache_key: key, live },
            InterceptEvent::Clock(now),
            saving,
            save,
        ),
        step_post(config, saving, InterceptEvent::Saved(saved), done, answer),
        save matches InterceptAction::Save { key: k, entry } && lookup_key@ == k@ && stored == entry,
        step_post(
            config,
            InterceptState::AwaitingLookup { request, cache_key: lookup_key },
            InterceptEvent::Looked(Ok(Some(stored))),
            after,
            replay,
        ),
    ensures
        answer matches InterceptAction::Respond { result: Ok(first), usage_source: _ } && replay matches InterceptAction::Respond {
            result: Ok(second),
            usage_source: Some(UsageSource::Database),
        } && !first.from_cache && second.from_cache && second.status == first.status
            && second.headers@ == first.headers@ && second.body@ == first.body@
            && second.cache_key@ == first.cache_key@,
{
}

/// Only a store hit is marked as from the cache: whatever the state and
/// event, a response handed out is marked `from_cache` exactly when the event
/// was a hit in the store; every response made from an upstream answer
/// (handed out at once, after saving, or replaced by the quota stand-in) is
/// marked as not from the cache.
pub proof fn lemma_from_cache_only_for_hits(
    config: InterceptorConfig,
    state: InterceptState,
    event: InterceptEvent,
    next: InterceptState,
    action: InterceptAction,
)
    requires
        step_post(config, state, event, next, action),
    ensures
        action matches InterceptAction::Respond { result: Ok(r), .. } ==> (r.from_cache <==> (
        event matches InterceptEvent::Looked(Ok(Some(_))))),
        event matches InterceptEvent::Answered(Ok(_)) ==> (action matches InterceptAction::Respond {
            result: Ok(r),
            ..
        } ==> !r.from_cache),
        event matches InterceptEvent::Saved(_) ==> (action matches InterceptAction::Respond {
            result: Ok(r),
            ..
        } ==> !r.from_cache),
{
}

/// A hit hands out the stored entry as it is: its status, headers and body,
/// under the key that was looked up, marked as from the cache.
pub proof fn lemma_hit_hands_out_entry(
    config: InterceptorConfig,
    request: InterceptRequest,
    key: String,
    entry: CachedResponse,
    next: InterceptState,
    action: InterceptAction,
)
    requires
        step_post(
            config,
            InterceptState::AwaitingLookup { request, cache_key: key },
            InterceptEvent::Looked(Ok(Some(entry))),
            next,
            action,
        ),
    ensures
        action matches InterceptAction::Respond { result: Ok(r), .. } && r.status == entry.status
            && r.headers == entry.headers && r.body == entry.body && r.from_cache && r.cache_key
            == key,
{
}

/// The quota shield fires on every 429 answer whose body holds the bytes
/// `insufficient_quota` anywhere, whatever else it holds: the answer is a 200
/// JSON reply with the stand-in body under the key `QUOTA_SHIELD_ACTIVE`,
/// not from the cache, and nothing is saved or read next.
pub proof fn lemma_quota_shield_fires(
    config: InterceptorConfig,
    key: String,
    live: InterceptResponse,
    at: int,
    next: InterceptState,
    action: InterceptAction,
)
    requires
        step_post(
            config,
            InterceptState::AwaitingUpstream { cache_key: key },
            InterceptEvent::Answered(Ok(live)),
            next,
            action,
        ),
        live.status == 429,
        0 <= at,
        at + encode_utf8("insufficient_quota"@).len() <= encode_utf8(live.body@).len(),
        encode_utf8(live.body@).subrange(at, at + encode_utf8("insufficient_quota"@).len())
            == encode_utf8("insufficient_quota"@),
    ensures
        next is Finished,
        action matches InterceptAction::Respond { result: Ok(r), usage_source: None } && r.status
            == 200 && r.body@ == QUOTA_SHIELD_BODY@ && r.cache_key@ == "QUOTA_SHIELD_ACTIVE"@
            && !r.from_cache && r.headers@ == Map::<Seq<char>, Seq<char>>::empty().insert(
            "Content-Type"@,
            "application/json"@,
        ),
{
    assert(occurs_at(encode_utf8(live.body@), encode_utf8("insufficient_quota"@), at));
}

/// An answer that is not a 429 is never replaced: it is either handed out as
/// it came (same status, headers and body, not from the cache, under the
/// request's key) or kept for saving.
pub proof fn lemma_other_answers_pass_through(
    config: InterceptorConfig,
    key: String,
    live: InterceptResponse,
    next: InterceptState,
    action: InterceptAction,
)
    requires
        step_post(
            config,
            InterceptState::AwaitingUpstream { cache_key: key },
            InterceptEvent::Answered(Ok(live)),
            next,
            action,
        ),
        live.status != 429,
    ensures
        action is ReadClock || (action matches InterceptAction::Respond { result: Ok(r), .. }
            && r.status == live.status && r.headers == live.headers && r.body == live.body
            && !r.from_cache && r.cache_key == key),
{
}

/// What the waiting states hold of an upstream answer that is being saved:
/// it is worth caching and is not a spent-quota reply.
pub open spec fn saving_only_worthy(config: InterceptorConfig, state: InterceptState) -> bool {
    match state {
        InterceptState::AwaitingClock { live, .. } | InterceptState::AwaitingSave { live, .. } => {
            &&& worth_caching(config, live.status, encode_utf8(live.body@).len() as int)
            &&& !quota_exhausted(live)
        },
        _ => true,
    }
}

/// Only answers worth caching are saved: every step keeps the waiting states
/// holding only answers worth caching that are not spent-quota replies, and
/// every entry it asks to save is worth caching (its status and body length
/// pass `should_cache`) and is no spent-quota reply.
pub proof fn lemma_only_worthy_answers_saved(
    config: InterceptorConfig,
    state: InterceptState,
    event: InterceptEvent,
    next: InterceptState,
    action: InterceptAction,
)
    requires
        saving_only_worthy(config, state),
        step_post(config, state, event, next, action),
    ensures
        saving_only_worthy(config, next),
        action matches InterceptAction::Save { entry, .. } ==> worth_caching(
            config,
            entry.status,
            encode_utf8(entry.body@).len() as int,
        ) && !(entry.status == 429 && bytes_contain(
            encode_utf8(entry.body@),
            encode_utf8("insufficient_quota"@),
        )),
{
}

/// The answer does not depend on whether saving it succeeded: a failed save
/// hands out the same response as a successful one.
pub proof fn lemma_save_outcome_does_not_change_answer(
    config: InterceptorConfig,
    key: String,
    live: InterceptResponse,
    first: Result<(), CheapApiError>,
    second: Result<(), CheapApiError>,
    next_a: InterceptState,
    action_a: InterceptAction,
    next_b: InterceptState,
    action_b: InterceptAction,
)
    requires
        step_post(
            config,
            InterceptState::AwaitingSave { cache_key: key, live },
            InterceptEvent::Saved(first),
            next_a,
            action_a,
        ),
        step_post(
            config,
            InterceptState::AwaitingSave { cache_key: key, live },
            InterceptEvent::Saved(second),
            next_b,
            action_b,
        ),
    ensures
        action_a == action_b,
{
}

} // verus!
