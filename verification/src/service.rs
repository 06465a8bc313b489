//! The delivery service: one logical "send a log" operation, driven
//! across attempts by the retry policy.

use vstd::prelude::*;
use vstd::string::StringExecFns;

use crate::betterstack_log_schema::BetterStackLogSchema;
use crate::env_config::EnvConfig;
use crate::env_config::str_eq;
use crate::errors::LogtailError;
use crate::retry::RetryConfig;
use crate::retry::compute_delay_ms;
use crate::retry::decide_retry;
use crate::transport::HttpClient;

verus! {

/// The log-collection endpoint.
pub const LOGS_URL: &'static str = "https://in.logs.betterstack.com";

/// The headers of one delivery: a bearer authorization built from the
/// configured token, and the JSON content type.
pub fn bearer_headers(config: &EnvConfig) -> (r: Vec<(String, String)>)
    ensures
        r@.len() == 2,
        r@[0].0@ == "Authorization"@,
        r@[0].1@ == "Bearer "@ + config.logs_source_token@,
        r@[1].0@ == "Content-Type"@,
        r@[1].1@ == "application/json"@,
{
    let mut auth = String::new();
    auth.append("Bearer ");
    auth.append(config.logs_source_token.as_str());
    let mut headers: Vec<(String, String)> = Vec::new();
    headers.push((String::from_str("Authorization"), auth));
    headers.push((String::from_str("Content-Type"), String::from_str("application/json")));
    proof {
        assert(headers@[0].1@ =~= "Bearer "@ + config.logs_source_token@);
    }
    headers
}

/// The given headers with any `Accept` entry removed.
pub open spec fn non_accept(hs: Seq<(String, String)>) -> Seq<(String, String)> {
    hs.filter(|h: (String, String)| h.0@ != "Accept"@)
}

/// Forces the `Accept: application/json` header: any caller-supplied
/// `Accept` entry is dropped (the endpoint is JSON-only, by design) and
/// the JSON one stands last.
pub fn force_accept(headers: Vec<(String, String)>) -> (r: Vec<(String, String)>)
    ensures
        r@.len() == non_accept(headers@).len() + 1,
        r@.drop_last() == non_accept(headers@),
        r@.last().0@ == "Accept"@,
        r@.last().1@ == "application/json"@,
{
    let mut out: Vec<(String, String)> = Vec::new();
    let n = headers.len();
    proof {
        assert(headers@.take(0) =~= Seq::<(String, String)>::empty());
        reveal(Seq::filter);
    }
    for i in 0..n
        invariant
            n == headers@.len(),
            out@ == non_accept(headers@.take(i as int)),
    {
        proof {
            reveal(Seq::filter);
            assert(headers@.take(i + 1).drop_last() =~= headers@.take(i as int));
            assert(headers@.take(i + 1).last() == headers@[i as int]);
        }
        if !str_eq(headers[i].0.as_str(), "Accept") {
            out.push((headers[i].0.clone(), headers[i].1.clone()));
        }
    }
    proof {
        assert(headers@.take(n as int) =~= headers@);
    }
    let ghost kept: Seq<(String, String)> = out@;
    out.push((String::from_str("Accept"), String::from_str("application/json")));
    proof {
        assert(out@.drop_last() =~= kept);
    }
    out
}

/// Relies on `std::time::SystemTime::now`: the nanosecond part of the
/// current time within its second, which is always below one billion.
#[verifier::external_body]
fn subsec_nanos_now() -> (r: u64)
    ensures
        r < 1_000_000_000,
{
    let nanos = std::time::SystemTime::now().duration_since(std::time::UNIX_EPOCH)
        .unwrap_or_default()
        .subsec_nanos();
    nanos as u64
}

/// Delivers one enriched record in a single attempt: serializes it to
/// its canonical JSON form, builds the bearer headers (with the forced
/// `Accept`), and performs exactly one transport call. Retrying is the
/// caller's business.
pub fn push_log<C: HttpClient>(client: &C, config: &EnvConfig, log: &BetterStackLogSchema) -> Result<
    Option<serde_json::Value>,
    LogtailError,
> {
    let headers = force_accept(bearer_headers(config));
    let body = log.to_json_string();
    client.post_json(LOGS_URL, body.as_str(), &headers)
}

/// Delivers one enriched record with retry on transient failures.
///
/// The first success returns at once. A failure is terminal as soon as
/// it is not retryable or the budget of `max_retries` further attempts
/// is spent — so at most `max_retries + 1` attempts are made, and the
/// error surfaced is always the most recent one. Between attempts the
/// task is suspended for the backoff delay of the attempt index.
pub fn push_log_with_retry<C: HttpClient>(
    client: &C,
    config: &EnvConfig,
    log: &BetterStackLogSchema,
    retry_config: &RetryConfig,
) -> Result<Option<serde_json::Value>, LogtailError> {
    let mut attempt: u32 = 0;
    loop
        invariant
            attempt <= retry_config.max_retries,
        decreases retry_config.max_retries - attempt,
    {
        let result = push_log(client, config, log);
        match result {
            Ok(v) => {
                return Ok(v);
            },
            Err(e) => {
                if !decide_retry(&e, attempt, retry_config.max_retries) {
                    return Err(e);
                }
                let entropy = subsec_nanos_now();
                let delay = compute_delay_ms(retry_config, attempt, entropy);
                client.sleep_ms(delay);
                attempt = attempt + 1;
            },
        }
    }
}

} // verus!
