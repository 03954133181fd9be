use cheap_api_core::headers::{collect_response_headers, Headers};
use cheap_api_core::mongo_adapter::CacheDocument;
use cheap_api_core::upstream::prepare_upstream;
use cheap_api_core::usage::{token_usage, usage_fields, usage_sum_fits, UsageBlock, UsageFields, UsageMetadataBlock, UsageSource};
use cheap_api_core::{CachedResponse, CheapApiError, InterceptRequest, MongoAdapterConfig};

fn pair(a: &str, b: &str) -> (String, String) {
    (a.to_string(), b.to_string())
}

fn read(a: &str, b: Option<&str>) -> (String, Option<String>) {
    (a.to_string(), b.map(|v| v.to_string()))
}

#[test]
fn repeated_response_headers_are_joined() {
    let pairs = vec![read("set-cookie", Some("a=1")), read("x-id", Some("7")), read("set-cookie", Some("b=2")), read("set-cookie", None)];
    let h = collect_response_headers(&pairs);
    assert_eq!(h.len(), 2);
    assert_eq!(h.get(&"set-cookie".to_string()).unwrap(), "a=1, b=2, ");
    assert_eq!(h.get(&"x-id".to_string()).unwrap(), "7");
    assert!(h.get(&"other".to_string()).is_none());
    assert_eq!(h.pairs()[0].0, "set-cookie");
}

#[test]
fn no_response_headers_give_an_empty_map() {
    let h = collect_response_headers(&Vec::new());
    assert_eq!(h.len(), 0);
}

#[test]
fn insert_replaces_a_value() {
    let mut h = Headers::new();
    h.insert("a".to_string(), "1".to_string());
    h.insert("b".to_string(), "2".to_string());
    h.insert("a".to_string(), "3".to_string());
    assert_eq!(h.len(), 2);
    assert_eq!(h.get(&"a".to_string()).unwrap(), "3");
    let c = h.clone();
    assert_eq!(c.get(&"b".to_string()).unwrap(), "2");
    assert_eq!(c.len(), 2);
}

fn req(method: &str, headers: Vec<(String, String)>, body: &str) -> InterceptRequest {
    let mut h = Headers::new();
    for (k, v) in headers {
        h.insert(k, v);
    }
    InterceptRequest { url: "https://example.com/x".to_string(), method: method.to_string(), headers: h, body: body.to_string() }
}

#[test]
fn upstream_request_keeps_url_headers_and_body() {
    let r = prepare_upstream(&req("post", vec![pair("Authorization", "Bearer k"), pair("X-Tab", "a\tb")], "{}")).unwrap();
    assert_eq!(r.method, b"POST".to_vec());
    assert_eq!(r.url, "https://example.com/x");
    assert_eq!(r.headers, vec![pair("Authorization", "Bearer k"), pair("X-Tab", "a\tb")]);
    assert_eq!(r.body, Some("{}".to_string()));
}

#[test]
fn empty_body_is_not_attached() {
    let r = prepare_upstream(&req("get", vec![], "")).unwrap();
    assert_eq!(r.method, b"GET".to_vec());
    assert!(r.body.is_none());
}

#[test]
fn extension_methods_are_upper_cased() {
    let r = prepare_upstream(&req("purge", vec![], "")).unwrap();
    assert_eq!(r.method, b"PURGE".to_vec());
}

#[test]
fn invalid_method_is_a_configuration_error() {
    match prepare_upstream(&req("", vec![], "")) {
        Err(CheapApiError::Config(m)) => assert_eq!(m, "invalid HTTP method: "),
        _ => panic!("expected a configuration error"),
    }
    match prepare_upstream(&req("po(st", vec![pair("bad name", "v")], "")) {
        Err(CheapApiError::Config(m)) => assert_eq!(m, "invalid HTTP method: po(st"),
        _ => panic!("expected a configuration error"),
    }
}

#[test]
fn invalid_header_name_is_an_encoding_error() {
    match prepare_upstream(&req("POST", vec![pair("bad name", "v")], "")) {
        Err(CheapApiError::Encoding(m)) => assert_eq!(m, "invalid HTTP header name"),
        _ => panic!("expected an encoding error"),
    }
}

#[test]
fn invalid_header_value_is_an_encoding_error() {
    match prepare_upstream(&req("POST", vec![pair("x-ok", "line\nbreak")], "")) {
        Err(CheapApiError::Encoding(m)) => assert_eq!(m, "failed to parse header value"),
        _ => panic!("expected an encoding error"),
    }
}

fn block(p: Option<u64>, i: Option<u64>, c: Option<u64>, o: Option<u64>, t: Option<u64>) -> UsageBlock {
    UsageBlock { prompt_tokens: p, input_tokens: i, completion_tokens: c, output_tokens: o, total_tokens: t }
}

#[test]
fn openai_usage_without_total_sums_the_counts() {
    let f = UsageFields { usage: Some(block(Some(10), None, Some(5), None, None)), usage_metadata: None };
    let u = token_usage(&f, false).unwrap();
    assert_eq!((u.prompt, u.completion, u.total), (10, 5, 15));
    assert_eq!(u.source, UsageSource::Live);
}

#[test]
fn anthropic_usage_uses_input_and_output_tokens() {
    let f = UsageFields { usage: Some(block(None, Some(3), None, Some(4), Some(100))), usage_metadata: None };
    let u = token_usage(&f, true).unwrap();
    assert_eq!((u.prompt, u.completion, u.total), (3, 4, 100));
    assert_eq!(u.source, UsageSource::Database);
}

#[test]
fn prompt_tokens_win_over_input_tokens() {
    let f = UsageFields { usage: Some(block(Some(1), Some(9), Some(2), Some(9), None)), usage_metadata: None };
    let u = token_usage(&f, false).unwrap();
    assert_eq!((u.prompt, u.completion, u.total), (1, 2, 3));
}

#[test]
fn gemini_usage_is_read_when_usage_is_incomplete() {
    let meta = UsageMetadataBlock { prompt_token_count: Some(8), candidates_token_count: Some(2), total_token_count: None };
    let f = UsageFields { usage: Some(block(Some(1), None, None, None, None)), usage_metadata: Some(meta) };
    let u = token_usage(&f, false).unwrap();
    assert_eq!((u.prompt, u.completion, u.total), (8, 2, 10));
}

#[test]
fn no_usage_reports_nothing() {
    let meta = UsageMetadataBlock { prompt_token_count: Some(8), candidates_token_count: None, total_token_count: Some(8) };
    let f = UsageFields { usage: None, usage_metadata: Some(meta) };
    assert!(token_usage(&f, false).is_none());
    let f = UsageFields { usage: None, usage_metadata: None };
    assert!(token_usage(&f, true).is_none());
}

fn entry(cached_at: u64) -> CachedResponse {
    let mut headers = Headers::new();
    headers.insert("content-type".to_string(), "text/plain".to_string());
    CachedResponse { status: 203, headers, body: "hello".to_string(), cached_at }
}

#[test]
fn stored_document_reads_back_as_the_entry() {
    let e = entry(1_700_000_000);
    let d = CacheDocument::from_entry("k1", &e);
    assert_eq!(d.id, "k1");
    assert_eq!(d.cached_at_millis, 1_700_000_000_000);
    let back = CachedResponse::from(d);
    assert_eq!(back.status, 203);
    assert_eq!(back.body, "hello");
    assert_eq!(back.cached_at, 1_700_000_000);
    assert_eq!(back.headers.get(&"content-type".to_string()).unwrap(), "text/plain");
}

#[test]
fn far_future_times_saturate() {
    let d = CacheDocument::from_entry("k", &entry(9_223_372_036_854_776));
    assert_eq!(d.cached_at_millis, i64::MAX);
    assert_eq!(CachedResponse::from(d).cached_at, 9_223_372_036_854_775);
    let d = CacheDocument::from_entry("k", &entry(u64::MAX));
    assert_eq!(d.cached_at_millis, -1000);
    assert_eq!(CachedResponse::from(d).cached_at, 0);
    let d = CacheDocument::from_entry("k", &entry(10_000_000_000_000_000_000));
    assert_eq!(d.cached_at_millis, i64::MIN);
    assert_eq!(CachedResponse::from(d).cached_at, 0);
}

#[test]
fn times_before_the_epoch_read_back_as_zero() {
    let d = CacheDocument { id: "k".to_string(), status: 200, headers: Headers::new(), body: String::new(), cached_at_millis: -1 };
    assert_eq!(CachedResponse::from(d).cached_at, 0);
    let d = CacheDocument { id: "k".to_string(), status: 200, headers: Headers::new(), body: String::new(), cached_at_millis: 1999 };
    assert_eq!(CachedResponse::from(d).cached_at, 1);
}

#[test]
fn mongo_defaults() {
    let c = MongoAdapterConfig::default();
    assert_eq!(c.connection_uri, "mongodb://localhost:27017");
    assert_eq!(c.database, "cheap_api");
    assert_eq!(c.collection, "response_cache");
    assert!(c.ttl_seconds.is_none());
}

#[test]
fn usage_sums_that_overflow_are_detected() {
    let f = UsageFields { usage: Some(block(Some(u64::MAX), None, Some(1), None, Some(3))), usage_metadata: None };
    assert!(!usage_sum_fits(&f));
    let f = UsageFields { usage: Some(block(Some(u64::MAX - 1), None, Some(1), None, None)), usage_metadata: None };
    assert!(usage_sum_fits(&f));
    assert_eq!(token_usage(&f, false).unwrap().total, u64::MAX);
    let f = UsageFields { usage: None, usage_metadata: None };
    assert!(usage_sum_fits(&f));
}

#[test]
fn usage_members_are_read_from_json() {
    let f = usage_fields("{\"usage\":{\"prompt_tokens\":12,\"completion_tokens\":3,\"output_tokens\":-1}}").unwrap();
    let u = f.usage.unwrap();
    assert_eq!((u.prompt_tokens, u.input_tokens, u.completion_tokens, u.output_tokens, u.total_tokens), (Some(12), None, Some(3), None, None));
    assert!(f.usage_metadata.is_none());
    let f = usage_fields("{\"usageMetadata\":{\"promptTokenCount\":4,\"candidatesTokenCount\":\"x\",\"totalTokenCount\":9}}").unwrap();
    assert!(f.usage.is_none());
    let g = f.usage_metadata.unwrap();
    assert_eq!((g.prompt_token_count, g.candidates_token_count, g.total_token_count), (Some(4), None, Some(9)));
}

#[test]
fn non_json_bodies_have_no_usage() {
    assert!(usage_fields("not json").is_none());
    let f = usage_fields("[1, 2]").unwrap();
    assert!(f.usage.is_none() && f.usage_metadata.is_none());
    let f = usage_fields("{\"usage\": 5}").unwrap();
    let u = f.usage.unwrap();
    assert!(u.prompt_tokens.is_none() && u.total_tokens.is_none());
}

#[test]
fn usage_read_from_a_body_is_reported() {
    let f = usage_fields("{\"usage\":{\"input_tokens\":7,\"output_tokens\":8}}").unwrap();
    let u = token_usage(&f, false).unwrap();
    assert_eq!((u.prompt, u.completion, u.total), (7, 8, 15));
}
