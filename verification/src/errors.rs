//! Classification of delivery failures and their retryability.

use vstd::prelude::*;

verus! {

/// A failure while delivering a log event.
///
/// Each variant carries a fixed retryability: HTTP failures are
/// retryable exactly when the status is a server error (500 or above),
/// network-level failures are always retryable, and serialization
/// failures are never retryable.
#[derive(Debug)]
pub enum LogtailError {
    /// The endpoint answered with a non-success HTTP status.
    Http { status: u16, message: String },
    /// A response body or payload could not be handled as JSON.
    Serialization(String),
    /// A connection-level failure (DNS, TCP, TLS, timeout).
    Network(String),
}

/// Retryability table: server errors and network faults are transient,
/// everything else is terminal.
pub open spec fn retryable(e: LogtailError) -> bool {
    match e {
        LogtailError::Http { status, .. } => status >= 500,
        LogtailError::Serialization(_) => false,
        LogtailError::Network(_) => true,
    }
}

impl LogtailError {
    /// Whether another delivery attempt may succeed for this failure.
    pub fn is_retryable(&self) -> (r: bool)
        ensures
            r == retryable(*self),
    {
        match self {
            LogtailError::Http { status, .. } => *status >= 500,
            LogtailError::Serialization(_) => false,
            LogtailError::Network(_) => true,
        }
    }
}

/// An HTTP failure is retryable exactly when its status is 500 or above;
/// in particular every 4xx status is terminal.
pub proof fn lemma_http_retryable_iff_server_error(status: u16, message: String)
    ensures
        retryable(LogtailError::Http { status, message }) <==> status >= 500,
{
}

/// A network failure is always retryable.
pub proof fn lemma_network_always_retryable(message: String)
    ensures
        retryable(LogtailError::Network(message)),
{
}

/// A serialization failure is never retryable.
pub proof fn lemma_serialization_never_retryable(message: String)
    ensures
        !retryable(LogtailError::Serialization(message)),
{
}

} // verus!
