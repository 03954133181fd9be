use cheap_api_core::interceptor::{InterceptAction, InterceptEvent, InterceptState, QUOTA_SHIELD_BODY};
use cheap_api_core::headers::Headers;
use cheap_api_core::usage::UsageSource;
use cheap_api_core::{CachedResponse, CheapApiError, InterceptRequest, InterceptResponse, Interceptor, InterceptorConfig};

fn make_interceptor() -> Interceptor {
    Interceptor::new(InterceptorConfig::default())
}

fn request(method: &str, body: &str) -> InterceptRequest {
    InterceptRequest {
        url: "https://api.openai.com/v1/chat/completions".to_string(),
        method: method.to_string(),
        headers: Headers::new(),
        body: body.to_string(),
    }
}

fn live(status: u16, body: &str) -> InterceptResponse {
    let mut headers = Headers::new();
    headers.insert("content-type".to_string(), "application/json".to_string());
    InterceptResponse {
        status,
        headers,
        body: body.to_string(),
        from_cache: false,
        cache_key: String::new(),
    }
}

#[test]
fn should_not_cache_large_bodies() {
    let ix = make_interceptor();
    assert!(!ix.should_cache(200, ix.config.max_cacheable_body_bytes + 1));
}

#[test]
fn should_not_cache_error_responses_by_default() {
    let ix = make_interceptor();
    assert!(!ix.should_cache(500, 100));
    assert!(!ix.should_cache(429, 100));
}

#[test]
fn should_cache_successful_responses() {
    let ix = make_interceptor();
    assert!(ix.should_cache(200, 100));
    assert!(ix.should_cache(201, 100));
    assert!(ix.should_cache(204, 100));
}

#[test]
fn should_cache_errors_when_flag_is_set() {
    let ix = Interceptor::new(InterceptorConfig {
        cache_errors: true,
        ..Default::default()
    });
    assert!(ix.should_cache(500, 100));
    assert!(ix.should_cache(429, 100));
}

#[test]
fn default_config_caches_up_to_ten_mebibytes() {
    let ix = make_interceptor();
    assert!(!ix.config.cache_errors);
    assert_eq!(ix.config.max_cacheable_body_bytes, 10 * 1024 * 1024);
    assert!(ix.should_cache(200, 10 * 1024 * 1024));
    assert!(!ix.should_cache(199, 1));
    assert!(!ix.should_cache(300, 1));
    assert!(ix.should_cache(299, 0));
}

#[test]
fn start_looks_up_the_request_key() {
    let ix = make_interceptor();
    let req = request("post", "{}");
    let key = cheap_api_core::compute_cache_key(&req.url, &req.method, req.body.as_bytes());
    let (state, action) = ix.start(req);
    match action {
        InterceptAction::LookUp { key: k } => assert_eq!(k, key),
        _ => panic!("expected a lookup"),
    }
    assert!(matches!(state, InterceptState::AwaitingLookup { .. }));
}

#[test]
fn cache_hit_replays_the_entry() {
    let ix = make_interceptor();
    let (state, _) = ix.start(request("POST", "{}"));
    let entry = CachedResponse {
        status: 201,
        headers: Headers::new(),
        body: "cached".to_string(),
        cached_at: 7,
    };
    let (next, action) = ix.step(state, InterceptEvent::Looked(Ok(Some(entry))));
    assert!(matches!(next, InterceptState::Finished));
    match action {
        InterceptAction::Respond { result: Ok(r), usage_source } => {
            assert_eq!(r.status, 201);
            assert_eq!(r.body, "cached");
            assert!(r.from_cache);
            assert_eq!(r.cache_key.len(), 64);
            assert_eq!(usage_source, Some(UsageSource::Database));
        }
        _ => panic!("expected a response"),
    }
}

#[test]
fn store_error_is_handed_out() {
    let ix = make_interceptor();
    let (state, _) = ix.start(request("POST", "{}"));
    let (_, action) = ix.step(state, InterceptEvent::Looked(Err(CheapApiError::Store("down".to_string()))));
    match action {
        InterceptAction::Respond { result: Err(CheapApiError::Store(m)), usage_source: None } => assert_eq!(m, "down"),
        _ => panic!("expected the store error"),
    }
}

#[test]
fn invalid_method_fails_before_forwarding() {
    let ix = make_interceptor();
    let (state, _) = ix.start(request("GE T", ""));
    let (next, action) = ix.step(state, InterceptEvent::Looked(Ok(None)));
    assert!(matches!(next, InterceptState::Finished));
    match action {
        InterceptAction::Respond { result: Err(CheapApiError::Config(m)), usage_source: None } => {
            assert_eq!(m, "invalid HTTP method: GE T")
        }
        _ => panic!("expected a configuration error"),
    }
}

/// Runs a miss through to the end with the given upstream answer, returning
/// the saved entry (if any) and the final action.
fn run_miss(ix: &Interceptor, req: InterceptRequest, answer: InterceptResponse) -> (Option<(String, CachedResponse)>, InterceptAction) {
    let (state, _) = ix.start(req);
    let (state, action) = ix.step(state, InterceptEvent::Looked(Ok(None)));
    assert!(matches!(action, InterceptAction::Forward(_)));
    let (state, action) = ix.step(state, InterceptEvent::Answered(Ok(answer)));
    match action {
        InterceptAction::ReadClock => {
            let (state, action) = ix.step(state, InterceptEvent::Clock(1_700_000_000));
            let saved = match action {
                InterceptAction::Save { key, entry } => (key, entry),
                _ => panic!("expected a save"),
            };
            let (next, action) = ix.step(state, InterceptEvent::Saved(Err(CheapApiError::Store("full".to_string()))));
            assert!(matches!(next, InterceptState::Finished));
            (Some(saved), action)
        }
        other => (None, other),
    }
}

#[test]
fn saved_answer_is_replayed_for_the_same_request() {
    let ix = make_interceptor();
    let (saved, action) = run_miss(&ix, request("post", "{\"q\":1}"), live(200, "{\"a\":2}"));
    let (key, entry) = saved.expect("a 200 answer is saved");
    assert_eq!(entry.cached_at, 1_700_000_000);
    let first = match action {
        InterceptAction::Respond { result: Ok(r), usage_source: Some(UsageSource::Live) } => r,
        _ => panic!("expected the live answer"),
    };
    assert!(!first.from_cache);
    assert_eq!(first.cache_key, key);
    // the same request, its method in another case, finds the saved entry
    let (state, action) = ix.start(request("POST", "{\"q\":1}"));
    match action {
        InterceptAction::LookUp { key: k } => assert_eq!(k, key),
        _ => panic!("expected a lookup"),
    }
    let (_, action) = ix.step(state, InterceptEvent::Looked(Ok(Some(entry))));
    match action {
        InterceptAction::Respond { result: Ok(second), usage_source: Some(UsageSource::Database) } => {
            assert!(second.from_cache);
            assert_eq!(second.status, first.status);
            assert_eq!(second.body, first.body);
            assert_eq!(second.cache_key, first.cache_key);
            assert_eq!(second.headers.get(&"content-type".to_string()).unwrap(), "application/json");
        }
        _ => panic!("expected a replay"),
    }
}

#[test]
fn quota_error_gets_the_shield_and_is_not_saved() {
    let ix = make_interceptor();
    let body = "{\"error\":{\"code\":\"insufficient_quota\"}}";
    let (saved, action) = run_miss(&ix, request("POST", "{}"), live(429, body));
    assert!(saved.is_none());
    match action {
        InterceptAction::Respond { result: Ok(r), usage_source: None } => {
            assert_eq!(r.status, 200);
            assert_eq!(r.body, QUOTA_SHIELD_BODY);
            assert!(r.body.contains("[QUOTA SHIELD]"));
            assert!(!r.from_cache);
            assert_eq!(r.cache_key, "QUOTA_SHIELD_ACTIVE");
            assert_eq!(r.headers.get(&"Content-Type".to_string()).unwrap(), "application/json");
            assert_eq!(r.headers.len(), 1);
        }
        _ => panic!("expected the quota shield"),
    }
}

#[test]
fn other_rate_limits_are_handed_out_unsaved() {
    let ix = make_interceptor();
    let (saved, action) = run_miss(&ix, request("POST", "{}"), live(429, "slow down"));
    assert!(saved.is_none());
    match action {
        InterceptAction::Respond { result: Ok(r), usage_source: Some(UsageSource::Live) } => {
            assert_eq!(r.status, 429);
            assert_eq!(r.body, "slow down");
        }
        _ => panic!("expected the live answer"),
    }
}

#[test]
fn quota_text_without_429_is_an_ordinary_answer() {
    let ix = make_interceptor();
    let (saved, _) = run_miss(&ix, request("POST", "{}"), live(200, "insufficient_quota"));
    assert!(saved.is_some());
}

#[test]
fn errors_are_saved_when_asked() {
    let ix = Interceptor::new(InterceptorConfig { cache_errors: true, max_cacheable_body_bytes: 4 });
    let (saved, _) = run_miss(&ix, request("POST", "{}"), live(500, "oops"));
    assert_eq!(saved.unwrap().1.status, 500);
    let (saved, action) = run_miss(&ix, request("POST", "{}"), live(500, "oops!"));
    assert!(saved.is_none());
    assert!(matches!(action, InterceptAction::Respond { result: Ok(_), .. }));
}

#[test]
fn upstream_error_is_handed_out() {
    let ix = make_interceptor();
    let (state, _) = ix.start(request("POST", "{}"));
    let (state, _) = ix.step(state, InterceptEvent::Looked(Ok(None)));
    let (next, action) = ix.step(state, InterceptEvent::Answered(Err(CheapApiError::Encoding("bad".to_string()))));
    assert!(matches!(next, InterceptState::Finished));
    assert!(matches!(action, InterceptAction::Respond { result: Err(CheapApiError::Encoding(_)), usage_source: None }));
}

#[test]
fn failed_save_gives_the_same_answer() {
    let ix = make_interceptor();
    let answer = |saved: Result<(), CheapApiError>| {
        let (state, _) = ix.start(request("POST", "{}"));
        let (state, _) = ix.step(state, InterceptEvent::Looked(Ok(None)));
        let (state, _) = ix.step(state, InterceptEvent::Answered(Ok(live(200, "ok"))));
        let (state, _) = ix.step(state, InterceptEvent::Clock(5));
        match ix.step(state, InterceptEvent::Saved(saved)).1 {
            InterceptAction::Respond { result: Ok(r), usage_source: Some(UsageSource::Live) } => (r.status, r.body, r.from_cache, r.cache_key),
            _ => panic!("expected the live answer"),
        }
    };
    assert_eq!(answer(Ok(())), answer(Err(CheapApiError::Store("full".to_string()))));
}
