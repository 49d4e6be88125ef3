//! The error model: a closed set of failure kinds with a retry
//! classification, and the mapping from a decoded error payload to a kind.

use vstd::prelude::*;
use vstd::string::*;

use crate::models::{ErrorDetails, ErrorResponse};
use crate::strings::{concat3, str_eq_str};

verus! {

/// Seconds to wait before retrying when the server gives no hint.
pub const DEFAULT_RETRY_AFTER_SECS: u64 = 60;

/// Errors that can occur when talking to the service.
#[derive(Debug)]
pub enum DocarooError {
    /// The underlying send failed (network, timeout, TLS); the payload is
    /// the transport's own description.
    RequestFailed(String),
    /// The service returned a structured error not otherwise classified.
    ApiError {
        /// Error code from the service.
        code: String,
        /// Error message from the service.
        message: String,
        /// Optional request identifier for support.
        request_id: Option<String>,
    },
    /// Local validation rejected the request before any network call.
    InvalidRequest(String),
    /// The service signalled throttling.
    RateLimitExceeded {
        /// Seconds to wait before retrying.
        retry_after: u64,
    },
    /// The service rejected the credentials.
    AuthenticationFailed(String),
    /// A response body could not be decoded into the expected shape.
    ParseError(String),
    /// The base URL or the endpoint path is malformed.
    UrlError(String),
}

/// The one-line account of an error, kind first: what a caller shows when
/// it has nothing better to say.
pub open spec fn spec_error_text(e: DocarooError) -> Seq<char> {
    match e {
        DocarooError::RequestFailed(d) => "HTTP request failed: "@ + d@,
        DocarooError::ApiError { code, message, .. } => "API error: "@ + message@ + " (code: "@
            + code@ + ")"@,
        DocarooError::InvalidRequest(m) => "Invalid request: "@ + m@,
        DocarooError::RateLimitExceeded { retry_after } => "Rate limit exceeded. Retry after "@
            + crate::strings::spec_dec_str(retry_after as nat) + " seconds"@,
        DocarooError::AuthenticationFailed(m) => "Authentication failed: "@ + m@,
        DocarooError::ParseError(m) => "Failed to parse response: "@ + m@,
        DocarooError::UrlError(m) => "Invalid URL: "@ + m@,
    }
}

/// The throttling hint read out of an error payload: `details.retryAfter`
/// when present and numeric, else the default.
pub open spec fn spec_retry_after_seconds(details: Option<ErrorDetails>) -> u64 {
    match details {
        Some(d) => match d.retry_after {
            Some(n) => n,
            None => DEFAULT_RETRY_AFTER_SECS,
        },
        None => DEFAULT_RETRY_AFTER_SECS,
    }
}

/// How an error payload is classified by its `error` code field alone.
pub open spec fn spec_from_error_response(response: ErrorResponse) -> DocarooError {
    if response.error@ == "rate_limit_exceeded"@ {
        DocarooError::RateLimitExceeded { retry_after: spec_retry_after_seconds(response.details) }
    } else if response.error@ == "unauthorized"@ {
        DocarooError::AuthenticationFailed(response.message)
    } else {
        DocarooError::ApiError {
            code: response.error,
            message: response.message,
            request_id: response.request_id,
        }
    }
}

impl DocarooError {
    /// Whether a retry of the same request could succeed without changes by
    /// the caller: true exactly for transport failures and throttling.
    pub open spec fn spec_retryable(&self) -> bool {
        self is RequestFailed || self is RateLimitExceeded
    }

    /// Classify an error payload by its `error` code field.
    pub fn from_error_response(response: ErrorResponse) -> (r: Self)
        ensures
            r == spec_from_error_response(response),
    {
        if str_eq_str(response.error.as_str(), "rate_limit_exceeded") {
            let retry_after: u64 = match response.details {
                Some(d) => match d.retry_after {
                    Some(n) => n,
                    None => DEFAULT_RETRY_AFTER_SECS,
                },
                None => DEFAULT_RETRY_AFTER_SECS,
            };
            DocarooError::RateLimitExceeded { retry_after }
        } else if str_eq_str(response.error.as_str(), "unauthorized") {
            DocarooError::AuthenticationFailed(response.message)
        } else {
            DocarooError::ApiError {
                code: response.error,
                message: response.message,
                request_id: response.request_id,
            }
        }
    }

    /// The one-line account of this error, kind first.
    pub fn describe(&self) -> (r: String)
        ensures
            r@ == spec_error_text(*self),
    {
        match self {
            DocarooError::RequestFailed(d) => {
                let mut s = String::from_str("HTTP request failed: ");
                s.append(d.as_str());
                s
            },
            DocarooError::ApiError { code, message, .. } => {
                let mut s = concat3("API error: ", message.as_str(), " (code: ");
                s.append(code.as_str());
                s.append(")");
                s
            },
            DocarooError::InvalidRequest(m) => {
                let mut s = String::from_str("Invalid request: ");
                s.append(m.as_str());
                s
            },
            DocarooError::RateLimitExceeded { retry_after } => {
                let n = crate::strings::u64_dec_str(*retry_after);
                concat3("Rate limit exceeded. Retry after ", n.as_str(), " seconds")
            },
            DocarooError::AuthenticationFailed(m) => {
                let mut s = String::from_str("Authentication failed: ");
                s.append(m.as_str());
                s
            },
            DocarooError::ParseError(m) => {
                let mut s = String::from_str("Failed to parse response: ");
                s.append(m.as_str());
                s
            },
            DocarooError::UrlError(m) => {
                let mut s = String::from_str("Invalid URL: ");
                s.append(m.as_str());
                s
            },
        }
    }

    /// Check whether this error is retryable.
    pub fn is_retryable(&self) -> (r: bool)
        ensures
            r == self.spec_retryable(),
    {
        match self {
            DocarooError::RequestFailed(_) => true,
            DocarooError::RateLimitExceeded { .. } => true,
            _ => false,
        }
    }

    /// The request identifier, where one is available for support purposes:
    /// only a structured service error carries one.
    pub fn request_id(&self) -> (r: Option<&str>)
        ensures
            match self {
                DocarooError::ApiError { request_id: Some(id), .. } => {
                    r matches Some(s) && s@ == id@
                },
                _ => r is None,
            },
    {
        match self {
            DocarooError::ApiError { request_id: Some(id), .. } => Some(id.as_str()),
            _ => None,
        }
    }
}

} // verus!
