//! Token usage reported by LLM APIs in a response body: OpenAI and Anthropic
//! write a `usage` object, Google Gemini a `usageMetadata` object.

use vstd::prelude::*;

verus! {

/// The counts found in a `usage` object (OpenAI / Anthropic style); each is
/// present when the field holds an unsigned integer.
pub struct UsageBlock {
    pub prompt_tokens: Option<u64>,
    pub input_tokens: Option<u64>,
    pub completion_tokens: Option<u64>,
    pub output_tokens: Option<u64>,
    pub total_tokens: Option<u64>,
}

/// The counts found in a `usageMetadata` object (Google Gemini style).
pub struct UsageMetadataBlock {
    pub prompt_token_count: Option<u64>,
    pub candidates_token_count: Option<u64>,
    pub total_token_count: Option<u64>,
}

/// What a JSON response body says of token usage: its `usage` and
/// `usageMetadata` members, when present.
pub struct UsageFields {
    pub usage: Option<UsageBlock>,
    pub usage_metadata: Option<UsageMetadataBlock>,
}

/// Where the response whose usage is reported came from.
#[derive(Clone, Copy, Debug, PartialEq, Eq, Structural)]
pub enum UsageSource {
    /// Replayed from the cache.
    Database,
    /// Answered by the upstream API.
    Live,
}

/// Token counts to report: prompt, completion and total.
#[derive(Debug)]
pub struct TokenUsage {
    pub source: UsageSource,
    pub prompt: u64,
    pub completion: u64,
    pub total: u64,
}

/// The first of two optional values that is present.
pub open spec fn first_present(a: Option<u64>, b: Option<u64>) -> Option<u64> {
    if a is Some {
        a
    } else {
        b
    }
}

/// Prompt and completion counts and the optional total of a `usage` object,
/// when it gives both counts (`prompt_tokens` or else `input_tokens`, and
/// `completion_tokens` or else `output_tokens`).
pub open spec fn block_counts(u: UsageBlock) -> Option<(u64, u64, Option<u64>)> {
    let p = first_present(u.prompt_tokens, u.input_tokens);
    let c = first_present(u.completion_tokens, u.output_tokens);
    if p is Some && c is Some {
        Some((p->0, c->0, u.total_tokens))
    } else {
        None
    }
}

/// Prompt and completion counts and the optional total of a `usageMetadata`
/// object, when it gives both counts.
pub open spec fn metadata_counts(g: UsageMetadataBlock) -> Option<(u64, u64, Option<u64>)> {
    if g.prompt_token_count is Some && g.candidates_token_count is Some {
        Some((g.prompt_token_count->0, g.candidates_token_count->0, g.total_token_count))
    } else {
        None
    }
}

/// The counts a body reports: those of `usage` when it gives both, else those
/// of `usageMetadata` when it gives both, else none.
pub open spec fn reported_counts(f: UsageFields) -> Option<(u64, u64, Option<u64>)> {
    if f.usage is Some && block_counts(f.usage->0) is Some {
        block_counts(f.usage->0)
    } else if f.usage_metadata is Some {
        metadata_counts(f.usage_metadata->0)
    } else {
        None
    }
}

/// The sum of the reported prompt and completion counts fits in a `u64`.
pub open spec fn counts_sum_fits(f: UsageFields) -> bool {
    reported_counts(f) matches Some(t) ==> t.0 + t.1 <= u64::MAX
}

/// The first of two optional counts that is present.
fn first_of(a: Option<u64>, b: Option<u64>) -> (r: Option<u64>)
    ensures
        r == first_present(a, b),
{
    match a {
        Some(x) => Some(x),
        None => b,
    }
}

/// Whether `serde_json::from_str` parses the text into a JSON value.
pub uninterp spec fn json_parses(body: Seq<char>) -> bool;

/// Whether the JSON value that the text parses into is an object with the
/// member `object` (what `Value::get(object)` finds).
pub uninterp spec fn json_has_member(body: Seq<char>, object: Seq<char>) -> bool;

/// The unsigned integer that `member` of `object` holds in the JSON value that
/// the text parses into (`Value::get(object)`, then `get(member)`, then
/// `as_u64`), if any.
pub uninterp spec fn json_member_u64(body: Seq<char>, object: Seq<char>, member: Seq<char>) -> Option<u64>;

/// Calls `serde_json::from_str` into a `serde_json::Value` and tells whether
/// it succeeded.
#[verifier::external_body]
fn json_is_valid(body: &str) -> (b: bool)
    ensures
        b == json_parses(body@),
{
    serde_json::from_str::<serde_json::Value>(body).is_ok()
}

/// Parses the text with `serde_json::from_str` and tells whether
/// `Value::get(object)` finds a member; false when the text does not parse.
#[verifier::external_body]
fn json_member_present(body: &str, object: &str) -> (b: bool)
    ensures
        b == json_has_member(body@, object@),
{
    serde_json::from_str::<serde_json::Value>(body).ok().map_or(false, |v| v.get(object).is_some())
}

/// Parses the text with `serde_json::from_str`, then takes
/// `get(object)`, `get(member)` and `as_u64`; `None` where any of them fails.
#[verifier::external_body]
fn json_u64_member(body: &str, object: &str, member: &str) -> (r: Option<u64>)
    ensures
        r == json_member_u64(body@, object@, member@),
{
    serde_json::from_str::<serde_json::Value>(body)
        .ok()
        .and_then(|v| v.get(object).and_then(|o| o.get(member)).and_then(|t| t.as_u64()))
}

/// The usage members that a response body holds, read as JSON: `None` when
/// the body is not JSON; else the `usage` object's `prompt_tokens`,
/// `input_tokens`, `completion_tokens`, `output_tokens` and `total_tokens`,
/// and the `usageMetadata` object's `promptTokenCount`,
/// `candidatesTokenCount` and `totalTokenCount`, each present when it holds
/// an unsigned integer.
pub fn usage_fields(body: &str) -> (r: Option<UsageFields>)
    ensures
        r is Some <==> json_parses(body@),
        r matches Some(f) ==> {
            &&& (f.usage is Some <==> json_has_member(body@, "usage"@))
            &&& (f.usage matches Some(u) ==> {
                &&& u.prompt_tokens == json_member_u64(body@, "usage"@, "prompt_tokens"@)
                &&& u.input_tokens == json_member_u64(body@, "usage"@, "input_tokens"@)
                &&& u.completion_tokens == json_member_u64(body@, "usage"@, "completion_tokens"@)
                &&& u.output_tokens == json_member_u64(body@, "usage"@, "output_tokens"@)
                &&& u.total_tokens == json_member_u64(body@, "usage"@, "total_tokens"@)
            })
            &&& (f.usage_metadata is Some <==> json_has_member(body@, "usageMetadata"@))
            &&& (f.usage_metadata matches Some(g) ==> {
                &&& g.prompt_token_count == json_member_u64(
                    body@,
                    "usageMetadata"@,
                    "promptTokenCount"@,
                )
                &&& g.candidates_token_count == json_member_u64(
                    body@,
                    "usageMetadata"@,
                    "candidatesTokenCount"@,
                )
                &&& g.total_token_count == json_member_u64(
                    body@,
                    "usageMetadata"@,
                    "totalTokenCount"@,
                )
            })
        },
{
    if !json_is_valid(body) {
        return None;
    }
    let usage = if json_member_present(body, "usage") {
        Some(
            UsageBlock {
                prompt_tokens: json_u64_member(body, "usage", "prompt_tokens"),
                input_tokens: json_u64_member(body, "usage", "input_tokens"),
                completion_tokens: json_u64_member(body, "usage", "completion_tokens"),
                output_tokens: json_u64_member(body, "usage", "output_tokens"),
                total_tokens: json_u64_member(body, "usage", "total_tokens"),
            },
        )
    } else {
        None
    };
    let usage_metadata = if json_member_present(body, "usageMetadata") {
        Some(
            UsageMetadataBlock {
                prompt_token_count: json_u64_member(body, "usageMetadata", "promptTokenCount"),
                candidates_token_count: json_u64_member(
                    body,
                    "usageMetadata",
                    "candidatesTokenCount",
                ),
                total_token_count: json_u64_member(body, "usageMetadata", "totalTokenCount"),
            },
        )
    } else {
        None
    };
    Some(UsageFields { usage, usage_metadata })
}

/// The reported total is the body's own: when the `usage` object gives a
/// prompt and a completion count, they are reported with its `total_tokens`
/// (absent when it has none); otherwise, when `usageMetadata` gives both
/// counts, they are reported with its `totalTokenCount`. A sum stands in for
/// the total only where the chosen object gives none.
pub proof fn lemma_reported_total_is_the_bodys_own(f: UsageFields)
    ensures
        f.usage matches Some(b) ==> ((b.prompt_tokens is Some || b.input_tokens is Some) && (
        b.completion_tokens is Some || b.output_tokens is Some) ==> reported_counts(f) == Some(
            (
                if b.prompt_tokens is Some {
                    b.prompt_tokens->0
                } else {
                    b.input_tokens->0
                },
                if b.completion_tokens is Some {
                    b.completion_tokens->0
                } else {
                    b.output_tokens->0
                },
                b.total_tokens,
            ),
        )),
        !(f.usage matches Some(b) && (b.prompt_tokens is Some || b.input_tokens is Some) && (
        b.completion_tokens is Some || b.output_tokens is Some)) ==> (f.usage_metadata matches Some(
            g,
        ) ==> (g.prompt_token_count is Some && g.candidates_token_count is Some ==> reported_counts(f)
            == Some((g.prompt_token_count->0, g.candidates_token_count->0, g.total_token_count)))),
{
}

/// Whether the counts that `token_usage` adds fit in a `u64`.
pub fn usage_sum_fits(fields: &UsageFields) -> (b: bool)
    ensures
        b == counts_sum_fits(*fields),
{
    if let Some(usage) = &fields.usage {
        let prompt = first_of(usage.prompt_tokens, usage.input_tokens);
        let completion = first_of(usage.completion_tokens, usage.output_tokens);
        if let (Some(p), Some(c)) = (prompt, completion) {
            return p <= u64::MAX - c;
        }
    }
    if let Some(meta) = &fields.usage_metadata {
        if let (Some(p), Some(c)) = (meta.prompt_token_count, meta.candidates_token_count) {
            return p <= u64::MAX - c;
        }
    }
    true
}

/// The token usage that a response body reports, if any: the prompt and
/// completion counts, and the total, which is the body's own total when it
/// gives one and their sum otherwise. `from_cache` tells where the body came
/// from.
pub fn token_usage(fields: &UsageFields, from_cache: bool) -> (r: Option<TokenUsage>)
    requires
        counts_sum_fits(*fields),
    ensures
        match reported_counts(*fields) {
            None => r is None,
            Some(t) => r matches Some(u) && u.prompt == t.0 && u.completion == t.1 && u.total == (
            match t.2 {
                Some(total) => total as int,
                None => t.0 + t.1,
            }) && u.source == (if from_cache {
                UsageSource::Database
            } else {
                UsageSource::Live
            }),
        },
        fields.usage matches Some(b) ==> ((b.prompt_tokens is Some || b.input_tokens is Some) && (
        b.completion_tokens is Some || b.output_tokens is Some) ==> (r matches Some(u) && (
        b.total_tokens matches Some(t) ==> u.total == t) && (b.total_tokens is None ==> u.total
            == u.prompt + u.completion))),
        !(fields.usage matches Some(b) && (b.prompt_tokens is Some || b.input_tokens is Some) && (
        b.completion_tokens is Some || b.output_tokens is Some)) ==> (fields.usage_metadata matches Some(
            g,
        ) ==> (g.prompt_token_count is Some && g.candidates_token_count is Some ==> (r matches Some(
            u,
        ) && u.prompt == g.prompt_token_count->0 && u.completion == g.candidates_token_count->0 && (
        g.total_token_count matches Some(t) ==> u.total == t) && (g.total_token_count is None
            ==> u.total == u.prompt + u.completion)))),
{
    let source = if from_cache {
        UsageSource::Database
    } else {
        UsageSource::Live
    };
    if let Some(usage) = &fields.usage {
        let prompt = first_of(usage.prompt_tokens, usage.input_tokens);
        let completion = first_of(usage.completion_tokens, usage.output_tokens);
        if let (Some(p), Some(c)) = (prompt, completion) {
            let sum = p + c;
            let total = match usage.total_tokens {
                Some(t) => t,
                None => sum,
            };
            return Some(TokenUsage { source, prompt: p, completion: c, total });
        }
    }
    if let Some(meta) = &fields.usage_metadata {
        if let (Some(p), Some(c)) = (meta.prompt_token_count, meta.candidates_token_count) {
            let sum = p + c;
            let total = match meta.total_token_count {
                Some(t) => t,
                None => sum,
            };
            return Some(TokenUsage { source, prompt: p, completion: c, total });
        }
    }
    None
}

} // verus!
