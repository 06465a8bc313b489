use std::sync::Mutex;
use std::sync::atomic::AtomicUsize;
use std::sync::atomic::Ordering;

use serde_json::Value;

use logtail::BetterStackLogSchema;
use logtail::EnvConfig;
use logtail::EnvEnum;
use logtail::HttpClient;
use logtail::LogLevel;
use logtail::LogSchema;
use logtail::Logger;
use logtail::LogtailError;
use logtail::RetryConfig;
use logtail::push_log;
use logtail::push_log_with_retry;

struct MockHttpClient {
    result: Mutex<Result<Option<Value>, String>>,
    sequence: Mutex<Option<Vec<Result<Option<Value>, (u16, String)>>>>,
    captured_url: Mutex<Option<String>>,
    captured_body: Mutex<Option<String>>,
    captured_headers: Mutex<Option<Vec<(String, String)>>>,
    call_count: AtomicUsize,
    slept_ms: Mutex<Vec<u64>>,
}

impl MockHttpClient {
    fn with_success(response: Option<Value>) -> Self {
        Self {
            result: Mutex::new(Ok(response)),
            sequence: Mutex::new(None),
            captured_url: Mutex::new(None),
            captured_body: Mutex::new(None),
            captured_headers: Mutex::new(None),
            call_count: AtomicUsize::new(0),
            slept_ms: Mutex::new(Vec::new()),
        }
    }

    fn with_error(message: &str) -> Self {
        Self {
            result: Mutex::new(Err(message.to_string())),
            sequence: Mutex::new(None),
            captured_url: Mutex::new(None),
            captured_body: Mutex::new(None),
            captured_headers: Mutex::new(None),
            call_count: AtomicUsize::new(0),
            slept_ms: Mutex::new(Vec::new()),
        }
    }

    fn with_sequence(results: Vec<Result<Option<Value>, (u16, String)>>) -> Self {
        let mut reversed = results;
        reversed.reverse(); // reverse so we can pop from the end
        Self {
            result: Mutex::new(Ok(None)), // fallback, unused when sequence is present
            sequence: Mutex::new(Some(reversed)),
            captured_url: Mutex::new(None),
            captured_body: Mutex::new(None),
            captured_headers: Mutex::new(None),
            call_count: AtomicUsize::new(0),
            slept_ms: Mutex::new(Vec::new()),
        }
    }
}

impl HttpClient for MockHttpClient {
    fn post_json(
        &self,
        url: &str,
        body: &str,
        headers: &Vec<(String, String)>,
    ) -> Result<Option<Value>, LogtailError> {
        self.call_count.fetch_add(1, Ordering::SeqCst);
        *self.captured_url.lock().unwrap() = Some(url.to_string());
        *self.captured_body.lock().unwrap() = Some(body.to_string());
        *self.captured_headers.lock().unwrap() = Some(headers.clone());

        // If we have a sequence, pop the next result
        let mut seq = self.sequence.lock().unwrap();
        if let Some(ref mut results) = *seq {
            if let Some(next) = results.pop() {
                return match next {
                    Ok(val) => Ok(val),
                    Err((status, message)) => Err(LogtailError::Http { status, message }),
                };
            }
        }
        drop(seq);

        // Fall back to single result
        match &*self.result.lock().unwrap() {
            Ok(val) => Ok(val.clone()),
            Err(msg) => Err(LogtailError::Http {
                status: 500,
                message: msg.clone(),
            }),
        }
    }

    fn sleep_ms(&self, delay_ms: u64) {
        self.slept_ms.lock().unwrap().push(delay_ms);
    }
}

fn test_config() -> EnvConfig {
    EnvConfig::from_values(
        "1.0.0".to_string(),
        EnvEnum::QA,
        "test-source-token".to_string(),
        false,
    )
}

fn test_log() -> BetterStackLogSchema {
    BetterStackLogSchema {
        env: EnvEnum::QA,
        message: "test message".to_string(),
        context: "test context".to_string(),
        level: LogLevel::Info,
        app_version: "1.0.0".to_string(),
    }
}

fn fast_retry_config(max_retries: u32) -> RetryConfig {
    RetryConfig {
        max_retries,
        base_delay_ms: 1,
        max_delay_ms: 10,
        jitter: false,
    }
}

#[test]
fn retries_on_5xx_and_succeeds() {
    let mock = MockHttpClient::with_sequence(vec![
        Err((500, "internal server error".to_string())),
        Err((502, "bad gateway".to_string())),
        Ok(Some(
            serde_json::from_str::<Value>("{\"status\": \"ok\"}").unwrap(),
        )),
    ]);

    let result = push_log_with_retry(&mock, &test_config(), &test_log(), &fast_retry_config(3));

    assert!(result.is_ok());
    assert_eq!(mock.call_count.load(Ordering::SeqCst), 3);
}

#[test]
fn no_retry_on_4xx() {
    let mock = MockHttpClient::with_sequence(vec![Err((400, "bad request".to_string()))]);

    let result = push_log_with_retry(&mock, &test_config(), &test_log(), &fast_retry_config(3));

    assert!(result.is_err());
    assert_eq!(mock.call_count.load(Ordering::SeqCst), 1);
}

#[test]
fn no_retry_on_serialization_error() {
    // A 422 is not retryable (status < 500)
    let mock =
        MockHttpClient::with_sequence(vec![Err((422, "unprocessable entity".to_string()))]);

    let result = push_log_with_retry(&mock, &test_config(), &test_log(), &fast_retry_config(3));

    assert!(result.is_err());
    assert_eq!(mock.call_count.load(Ordering::SeqCst), 1);
}

#[test]
fn exhausts_retries_and_returns_error() {
    let mock = MockHttpClient::with_sequence(vec![
        Err((500, "fail 1".to_string())),
        Err((500, "fail 2".to_string())),
        Err((500, "fail 3".to_string())),
        Err((500, "fail 4".to_string())),
    ]);

    let result = push_log_with_retry(&mock, &test_config(), &test_log(), &fast_retry_config(3));

    assert!(result.is_err());
    // max_retries=3 means 1 initial + 3 retries = 4 attempts
    assert_eq!(mock.call_count.load(Ordering::SeqCst), 4);
}

#[test]
fn retry_exhaustion_surfaces_most_recent_error() {
    let mock = MockHttpClient::with_sequence(vec![
        Err((500, "fail 1".to_string())),
        Err((500, "fail 2".to_string())),
        Err((500, "fail 3".to_string())),
        Err((500, "fail 4".to_string())),
    ]);

    let result = push_log_with_retry(&mock, &test_config(), &test_log(), &fast_retry_config(3));

    match result {
        Err(LogtailError::Http { status, message }) => {
            assert_eq!(status, 500);
            assert_eq!(message, "fail 4");
        }
        other => panic!("expected an HTTP error, got {:?}", other),
    }
}

#[test]
fn no_retry_when_max_retries_zero() {
    let mock = MockHttpClient::with_sequence(vec![Err((500, "server error".to_string()))]);

    let result = push_log_with_retry(&mock, &test_config(), &test_log(), &fast_retry_config(0));

    assert!(result.is_err());
    assert_eq!(mock.call_count.load(Ordering::SeqCst), 1);
}

#[test]
fn succeeds_on_first_try_no_retry_needed() {
    let mock = MockHttpClient::with_sequence(vec![Ok(Some(
        serde_json::from_str::<Value>("{\"ok\": true}").unwrap(),
    ))]);

    let result = push_log_with_retry(&mock, &test_config(), &test_log(), &fast_retry_config(3));

    assert!(result.is_ok());
    assert_eq!(mock.call_count.load(Ordering::SeqCst), 1);
}

#[test]
fn backoff_delays_follow_doubling_schedule() {
    let mock = MockHttpClient::with_sequence(vec![
        Err((500, "one".to_string())),
        Err((500, "two".to_string())),
        Err((500, "three".to_string())),
        Ok(None),
    ]);
    let config = RetryConfig {
        max_retries: 3,
        base_delay_ms: 100,
        max_delay_ms: 250,
        jitter: false,
    };

    let result = push_log_with_retry(&mock, &test_config(), &test_log(), &config);

    assert!(result.is_ok());
    // min(100 * 2^a, 250) for attempt indices 0, 1, 2
    assert_eq!(*mock.slept_ms.lock().unwrap(), vec![100, 200, 250]);
}

#[test]
fn jittered_delays_stay_below_cap() {
    let mock = MockHttpClient::with_sequence(vec![
        Err((500, "one".to_string())),
        Err((500, "two".to_string())),
        Ok(None),
    ]);
    let config = RetryConfig {
        max_retries: 2,
        base_delay_ms: 100,
        max_delay_ms: 250,
        jitter: true,
    };

    let result = push_log_with_retry(&mock, &test_config(), &test_log(), &config);

    assert!(result.is_ok());
    let slept = mock.slept_ms.lock().unwrap();
    assert_eq!(slept.len(), 2);
    assert!(slept[0] < 100);
    assert!(slept[1] < 200);
}

#[test]
fn calls_correct_url() {
    let mock = MockHttpClient::with_success(None);
    let _ = push_log(&mock, &test_config(), &test_log());

    let url = mock.captured_url.lock().unwrap().clone().unwrap();
    assert_eq!(url, "https://in.logs.betterstack.com");
}

#[test]
fn sends_bearer_header() {
    let mock = MockHttpClient::with_success(None);
    let _ = push_log(&mock, &test_config(), &test_log());

    let headers = mock.captured_headers.lock().unwrap().clone().unwrap();
    let auth = headers
        .iter()
        .find(|(name, _)| name.as_str() == "Authorization")
        .map(|(_, value)| value.clone())
        .unwrap();
    assert_eq!(auth, "Bearer test-source-token");
}

#[test]
fn sends_content_type_json() {
    let mock = MockHttpClient::with_success(None);
    let _ = push_log(&mock, &test_config(), &test_log());

    let headers = mock.captured_headers.lock().unwrap().clone().unwrap();
    let content_type = headers
        .iter()
        .find(|(name, _)| name.as_str() == "Content-Type")
        .map(|(_, value)| value.clone())
        .unwrap();
    assert_eq!(content_type, "application/json");
}

#[test]
fn sends_forced_accept_header() {
    let mock = MockHttpClient::with_success(None);
    let _ = push_log(&mock, &test_config(), &test_log());

    let headers = mock.captured_headers.lock().unwrap().clone().unwrap();
    let accept = headers
        .iter()
        .find(|(name, _)| name.as_str() == "Accept")
        .map(|(_, value)| value.clone())
        .unwrap();
    assert_eq!(accept, "application/json");
}

#[test]
fn sends_serialized_log_body() {
    let mock = MockHttpClient::with_success(None);
    let _ = push_log(&mock, &test_config(), &test_log());

    let body_text = mock.captured_body.lock().unwrap().clone().unwrap();
    let body: Value = serde_json::from_str(&body_text).unwrap();
    assert_eq!(body["message"], "test message");
    assert_eq!(body["context"], "test context");
    assert_eq!(body["level"], "Info");
    assert_eq!(body["env"], "QA");
    assert_eq!(body["app_version"], "1.0.0");
}

#[test]
fn returns_some_on_success() {
    let response = serde_json::from_str::<Value>("{\"status\": \"ok\"}").unwrap();
    let mock = MockHttpClient::with_success(Some(response.clone()));

    let result = push_log(&mock, &test_config(), &test_log());
    assert_eq!(result.unwrap().unwrap(), response);
}

#[test]
fn returns_error_on_failure() {
    let mock = MockHttpClient::with_error("connection refused");

    let result = push_log(&mock, &test_config(), &test_log());
    assert!(result.is_err());
}

#[test]
fn returns_none_on_empty_body() {
    let mock = MockHttpClient::with_success(None);

    let result = push_log(&mock, &test_config(), &test_log());
    assert!(result.unwrap().is_none());
    assert_eq!(mock.call_count.load(Ordering::SeqCst), 1);
}

fn local_logger() -> Logger {
    Logger::new(
        EnvConfig::from_values(
            "1.0.0".to_string(),
            EnvEnum::Local,
            "test-source-token".to_string(),
            false,
        ),
        fast_retry_config(3),
    )
}

fn qa_logger() -> Logger {
    Logger::new(test_config(), fast_retry_config(3))
}

fn caller_log() -> LogSchema {
    LogSchema {
        message: "test message".to_string(),
        context: "test context".to_string(),
    }
}

#[test]
fn local_environment_performs_no_network_calls() {
    let mock = MockHttpClient::with_success(None);
    let logger = local_logger();

    assert!(matches!(logger.info(&mock, caller_log()), Ok(None)));
    assert!(matches!(logger.warn(&mock, caller_log()), Ok(None)));
    assert!(matches!(logger.error(&mock, caller_log()), Ok(None)));
    assert_eq!(mock.call_count.load(Ordering::SeqCst), 0);
}

#[test]
fn nonlocal_environment_initiates_one_delivery() {
    let mock = MockHttpClient::with_success(None);
    let logger = qa_logger();

    let result = logger.info(&mock, caller_log());

    assert!(result.is_ok());
    assert_eq!(mock.call_count.load(Ordering::SeqCst), 1);
}

#[test]
fn nonlocal_environment_propagates_delivery_error() {
    let mock = MockHttpClient::with_sequence(vec![Err((400, "bad request".to_string()))]);
    let logger = qa_logger();

    let result = logger.error(&mock, caller_log());

    assert!(matches!(result, Err(LogtailError::Http { status: 400, .. })));
    assert_eq!(mock.call_count.load(Ordering::SeqCst), 1);
}

#[test]
fn debug_never_calls_network_and_reports_success() {
    let mock = MockHttpClient::with_success(None);
    let logger = qa_logger();

    let result = logger.debug(caller_log());

    assert!(matches!(result, Ok(None)));
    assert_eq!(mock.call_count.load(Ordering::SeqCst), 0);
}
