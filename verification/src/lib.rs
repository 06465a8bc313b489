//! Client library for forwarding structured log events to a remote
//! log-collection HTTP endpoint, with retry on transient failures.

use std::io::Write;

use vstd::prelude::*;

mod betterstack_log_schema;
mod env_config;
mod errors;
mod json_text;
mod log_level;
mod log_schema;
mod retry;
mod service;
mod transport;

pub use betterstack_log_schema::BetterStackLogSchema;
pub use env_config::EnvConfig;
pub use env_config::EnvEnum;
pub use env_config::env_label;
pub use env_config::env_label_parsed;
pub use env_config::env_wire_label;
pub use env_config::parse_env_label;
pub use errors::LogtailError;
pub use errors::lemma_http_retryable_iff_server_error;
pub use errors::lemma_network_always_retryable;
pub use errors::lemma_serialization_never_retryable;
pub use errors::retryable;
pub use json_text::dec_digit_char;
pub use json_text::dec_digits;
pub use json_text::hex_digit_char;
pub use json_text::json_escaped;
pub use json_text::json_escaped_char;
pub use json_text::json_quoted;
pub use json_text::lemma_json_escaped_push;
pub use json_text::u16_to_dec;
pub use log_level::LogLevel;
pub use log_level::level_label;
pub use log_level::level_wire_label;
pub use log_schema::LogSchema;
pub use retry::RetryConfig;
pub use retry::backoff_delay_ms;
pub use retry::capped_delay_ms;
pub use retry::compute_delay_ms;
pub use retry::decide_retry;
pub use retry::lemma_backoff_delay_formula;
pub use retry::lemma_non_retryable_is_terminal;
pub use retry::lemma_zero_budget_never_retries;
pub use retry::pow2_nat;
pub use retry::should_retry;
pub use service::non_accept;
pub use service::LOGS_URL;
pub use service::bearer_headers;
pub use service::force_accept;
pub use service::push_log;
pub use service::push_log_with_retry;
pub use transport::HttpClient;
pub use transport::classify_response;
pub use transport::http_failure_message;
pub use transport::is_success_status;
pub use transport::json_parse_ok;

verus! {

/// Relies on `std::io::stdout`: writes one line to standard output.
#[verifier::external_body]
fn emit_stdout(line: &str) {
    let _ = writeln!(std::io::stdout(), "{}", line);
}

/// Relies on `std::io::stderr`: writes one line to the error stream.
#[verifier::external_body]
fn emit_stderr(line: &str) {
    let _ = writeln!(std::io::stderr(), "{}", line);
}

/// The logger facade: holds the configuration and retry policy for its
/// lifetime and exposes one operation per level.
///
/// Two gates govern every call. The network gate: in the `Local`
/// environment the delivery pipeline is skipped entirely, and the call
/// reports success. The console gate: when the configuration is
/// verbose, `info` and `warn` echo the canonical form of the enriched
/// record to standard output and `error` echoes it to the error
/// stream. `debug` always echoes and never delivers, whatever the
/// environment or verbosity. Delivery failures are propagated to the
/// caller unchanged.
pub struct Logger {
    pub env_config: EnvConfig,
    pub retry_config: RetryConfig,
}

impl Logger {
    /// Builds a logger around the given configuration and retry policy.
    pub fn new(env_config: EnvConfig, retry_config: RetryConfig) -> (r: Self)
        ensures
            r.env_config == env_config,
            r.retry_config == retry_config,
    {
        Logger { env_config, retry_config }
    }

    /// Logs at the `Info` level: echoes to standard output when
    /// verbose, and delivers over the network unless the environment is
    /// `Local`, in which case it reports success without any attempt.
    pub fn info<C: HttpClient>(&self, client: &C, log: LogSchema) -> (r: Result<
        Option<serde_json::Value>,
        LogtailError,
    >)
        ensures
            self.env_config.environment == EnvEnum::Local ==> r matches Ok(None),
    {
        let enriched = log.to_betterstack(&self.env_config, LogLevel::Info);
        if self.env_config.verbose {
            let line = enriched.to_json_string();
            emit_stdout(line.as_str());
        }
        if self.env_config.environment == EnvEnum::Local {
            Ok(None)
        } else {
            push_log_with_retry(client, &self.env_config, &enriched, &self.retry_config)
        }
    }

    /// Logs at the `Warn` level: echoes to standard output when
    /// verbose, and delivers over the network unless the environment is
    /// `Local`, in which case it reports success without any attempt.
    pub fn warn<C: HttpClient>(&self, client: &C, log: LogSchema) -> (r: Result<
        Option<serde_json::Value>,
        LogtailError,
    >)
        ensures
            self.env_config.environment == EnvEnum::Local ==> r matches Ok(None),
    {
        let enriched = log.to_betterstack(&self.env_config, LogLevel::Warn);
        if self.env_config.verbose {
            let line = enriched.to_json_string();
            emit_stdout(line.as_str());
        }
        if self.env_config.environment == EnvEnum::Local {
            Ok(None)
        } else {
            push_log_with_retry(client, &self.env_config, &enriched, &self.retry_config)
        }
    }

    /// Logs at the `Error` level: echoes to the error stream when
    /// verbose, and delivers over the network unless the environment is
    /// `Local`, in which case it reports success without any attempt.
    pub fn error<C: HttpClient>(&self, client: &C, log: LogSchema) -> (r: Result<
        Option<serde_json::Value>,
        LogtailError,
    >)
        ensures
            self.env_config.environment == EnvEnum::Local ==> r matches Ok(None),
    {
        let enriched = log.to_betterstack(&self.env_config, LogLevel::Error);
        if self.env_config.verbose {
            let line = enriched.to_json_string();
            emit_stderr(line.as_str());
        }
        if self.env_config.environment == EnvEnum::Local {
            Ok(None)
        } else {
            push_log_with_retry(client, &self.env_config, &enriched, &self.retry_config)
        }
    }

    /// Logs at the `Debug` level: always echoes the canonical form to
    /// standard output, never delivers over the network, and always
    /// reports success.
    pub fn debug(&self, log: LogSchema) -> (r: Result<Option<serde_json::Value>, LogtailError>)
        ensures
            r matches Ok(None),
    {
        let enriched = log.to_betterstack(&self.env_config, LogLevel::Debug);
        let line = enriched.to_json_string();
        emit_stdout(line.as_str());
        Ok(None)
    }
}

} // verus!
