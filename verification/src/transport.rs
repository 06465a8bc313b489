//! The transport boundary: the `HttpClient` capability, and the
//! classification of a raw HTTP response into a delivery outcome.

use vstd::prelude::*;
use vstd::string::StringExecFns;

use crate::errors::LogtailError;
use crate::json_text::dec_digits;
use crate::json_text::u16_to_dec;

verus! {

#[verifier::external_type_specification]
#[verifier::external_body]
pub struct ExValue(serde_json::Value);

/// Whether this text parses as JSON.
pub uninterp spec fn json_parse_ok(s: Seq<char>) -> bool;

/// Relies on `serde_json::from_str`: whether parsing a text as a JSON
/// value succeeds is a function of the text alone.
#[verifier::external_body]
fn parse_json_value(s: &str) -> (r: Result<serde_json::Value, String>)
    ensures
        r is Ok <==> json_parse_ok(s@),
{
    match serde_json::from_str::<serde_json::Value>(s) {
        Ok(v) => Ok(v),
        Err(e) => Err(e.to_string()),
    }
}

/// The capability to send one JSON payload over HTTP, and to suspend
/// the current logical task between attempts.
///
/// Implementations are peers: a production client performing a real
/// network round trip, or a scripted double answering from a queue.
/// One call makes at most one network round trip; retrying is the
/// caller's business.
pub trait HttpClient {
    /// Sends an HTTP POST with the given body and headers and returns
    /// the parsed response body (`None` for an empty one), or the
    /// classified failure.
    fn post_json(&self, url: &str, body: &str, headers: &Vec<(String, String)>) -> Result<
        Option<serde_json::Value>,
        LogtailError,
    >;

    /// Suspends the current logical task for the given number of
    /// milliseconds, without blocking unrelated concurrent calls.
    fn sleep_ms(&self, delay_ms: u64);
}

/// Whether an HTTP status reports success.
pub open spec fn is_success_status(status: u16) -> bool {
    200 <= status < 300
}

/// The fixed diagnostic text for a non-success HTTP status.
pub open spec fn http_failure_message(status: u16) -> Seq<char> {
    "HTTP error with status "@ + dec_digits(status as nat)
}

/// Classifies a raw HTTP response into a delivery outcome:
/// a success with an empty body yields nothing, a success with a
/// non-empty body yields its parsed JSON (a malformed success body is a
/// serialization failure, not a transport one), and a non-success
/// status is an HTTP failure carrying that status.
pub fn classify_response(status: u16, body: &str) -> (r: Result<
    Option<serde_json::Value>,
    LogtailError,
>)
    ensures
        is_success_status(status) && body@.len() == 0 ==> r matches Ok(None),
        is_success_status(status) && body@.len() > 0 && json_parse_ok(body@) ==> r matches Ok(
            Some(_),
        ),
        is_success_status(status) && body@.len() > 0 && !json_parse_ok(body@) ==> r matches Err(
            LogtailError::Serialization(_),
        ),
        !is_success_status(status) ==> (r matches Err(LogtailError::Http { status: rs, message: rm })
            && rs == status && rm@ == http_failure_message(status)),
{
    if 200 <= status && status < 300 {
        if body.is_empty() {
            Ok(None)
        } else {
            match parse_json_value(body) {
                Ok(v) => Ok(Some(v)),
                Err(e) => Err(LogtailError::Serialization(e)),
            }
        }
    } else {
        let mut message = String::new();
        message.append("HTTP error with status ");
        let digits = u16_to_dec(status);
        message.append(digits.as_str());
        Err(LogtailError::Http { status, message })
    }
}

} // verus!
