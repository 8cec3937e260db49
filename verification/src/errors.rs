//! Error taxonomy of the API client.
//!
//! Durations are carried as whole milliseconds and HTTP statuses as plain
//! `u16` codes, so every field is a value the verifier can reason about.
//! The structured payload that may accompany an HTTP error is reduced to the
//! list of its `errors[].message` strings, which is exactly what the
//! pagination engine's token-expiry check reads.

use vstd::prelude::*;

verus! {

use crate::num::spec_decimal;

/// Rate-limit telemetry captured from response headers.
#[derive(Debug, Clone, Copy, PartialEq, Eq)]
pub struct RateLimitInfo {
    /// Total allowed requests in the current window.
    pub limit: Option<u32>,
    /// Remaining requests available before throttling.
    pub remaining: Option<u32>,
    /// Epoch seconds when the quota resets, if supplied by the API.
    pub reset: Option<u64>,
    /// Suggested delay before retrying, in milliseconds.
    pub retry_after_ms: Option<u64>,
}

/// Errors that can occur while interacting with the API.
#[derive(Debug, Clone, PartialEq, Eq)]
pub enum ApiError {
    /// General networking failure, after retries where applicable.
    Network(String),
    /// Response payload could not be read as JSON.
    Deserialize(String),
    /// HTTP status code returned an error.
    Http {
        /// Status returned by the server.
        status: u16,
        /// Message extracted from the response body, or the canonical
        /// reason phrase when the body was empty.
        message: String,
        /// The `errors[].message` strings of the structured payload, when
        /// the body carried one.
        error_messages: Vec<String>,
    },
    /// Authentication failed (401/403); never retried.
    Authentication(String),
    /// Rate limit was hit and retries exhausted.
    RateLimited {
        /// Recommended wait in milliseconds before retrying.
        retry_after_ms: u64,
        /// Raw response body returned with the 429.
        body: String,
    },
    /// Cache layer failure.
    Cache(String),
    /// Offline mode requested data that was not cached.
    Offline {
        /// Resource identifier, typically the request path.
        resource: String,
    },
    /// Catch-all error message.
    Other(String),
}

impl ApiError {
    /// Convenience constructor for HTTP errors.
    pub fn http(status: u16, message: String, error_messages: Vec<String>) -> (r: ApiError)
        ensures
            r == (ApiError::Http { status, message, error_messages }),
    {
        ApiError::Http { status, message, error_messages }
    }
}

/// The mathematical image of an [`ApiError`]: the same variants over
/// character sequences.
pub enum SpecApiError {
    /// Image of `ApiError::Network`.
    Network(Seq<char>),
    /// Image of `ApiError::Deserialize`.
    Deserialize(Seq<char>),
    /// Image of `ApiError::Http`.
    Http { status: u16, message: Seq<char>, error_messages: Seq<Seq<char>> },
    /// Image of `ApiError::Authentication`.
    Authentication(Seq<char>),
    /// Image of `ApiError::RateLimited`.
    RateLimited { retry_after_ms: u64, body: Seq<char> },
    /// Image of `ApiError::Cache`.
    Cache(Seq<char>),
    /// Image of `ApiError::Offline`.
    Offline { resource: Seq<char> },
    /// Image of `ApiError::Other`.
    Other(Seq<char>),
}

impl View for ApiError {
    type V = SpecApiError;

    open spec fn view(&self) -> SpecApiError {
        match self {
            ApiError::Network(m) => SpecApiError::Network(m@),
            ApiError::Deserialize(m) => SpecApiError::Deserialize(m@),
            ApiError::Http { status, message, error_messages } => (SpecApiError::Http {
                status: *status,
                message: message@,
                error_messages: error_messages.deep_view(),
            }),
            ApiError::Authentication(m) => SpecApiError::Authentication(m@),
            ApiError::RateLimited { retry_after_ms, body } => (SpecApiError::RateLimited {
                retry_after_ms: *retry_after_ms,
                body: body@,
            }),
            ApiError::Cache(m) => SpecApiError::Cache(m@),
            ApiError::Offline { resource } => (SpecApiError::Offline { resource: resource@ }),
            ApiError::Other(m) => SpecApiError::Other(m@),
        }
    }
}

/// The one-line rendering of an error.
pub open spec fn spec_error_message(e: ApiError) -> Seq<char> {
    match e {
        ApiError::Network(m) => "network error: "@ + m@,
        ApiError::Deserialize(m) => "failed to parse response: "@ + m@,
        ApiError::Http { status, message, .. } => "HTTP "@ + spec_decimal(status as nat) + ": "@
            + message@,
        ApiError::Authentication(m) => "authentication failed: "@ + m@,
        ApiError::RateLimited { retry_after_ms, body } => "rate limited after "@ + spec_decimal(
            retry_after_ms as nat,
        ) + " ms: "@ + body@,
        ApiError::Cache(m) => "cache error: "@ + m@,
        ApiError::Offline { resource } => "offline mode enabled and no cached response available for "@
            + resource@,
        ApiError::Other(m) => m@,
    }
}

impl ApiError {
    /// Render the error as a single line of text.
    pub fn message(&self) -> (r: String)
        ensures
            r@ == spec_error_message(*self),
    {
        let mut out: Vec<char> = Vec::new();
        match self {
            ApiError::Network(m) => {
                let mut p = crate::text::str_to_chars("network error: ");
                out.append(&mut p);
                let mut t = crate::text::str_to_chars(m.as_str());
                out.append(&mut t);
            },
            ApiError::Deserialize(m) => {
                let mut p = crate::text::str_to_chars("failed to parse response: ");
                out.append(&mut p);
                let mut t = crate::text::str_to_chars(m.as_str());
                out.append(&mut t);
            },
            ApiError::Http { status, message, .. } => {
                let mut p = crate::text::str_to_chars("HTTP ");
                out.append(&mut p);
                let mut d = crate::num::u64_to_dec_chars(*status as u64);
                out.append(&mut d);
                let mut c = crate::text::str_to_chars(": ");
                out.append(&mut c);
                let mut t = crate::text::str_to_chars(message.as_str());
                out.append(&mut t);
            },
            ApiError::Authentication(m) => {
                let mut p = crate::text::str_to_chars("authentication failed: ");
                out.append(&mut p);
                let mut t = crate::text::str_to_chars(m.as_str());
                out.append(&mut t);
            },
            ApiError::RateLimited { retry_after_ms, body } => {
                let mut p = crate::text::str_to_chars("rate limited after ");
                out.append(&mut p);
                let mut d = crate::num::u64_to_dec_chars(*retry_after_ms);
                out.append(&mut d);
                let mut c = crate::text::str_to_chars(" ms: ");
                out.append(&mut c);
                let mut t = crate::text::str_to_chars(body.as_str());
                out.append(&mut t);
            },
            ApiError::Cache(m) => {
                let mut p = crate::text::str_to_chars("cache error: ");
                out.append(&mut p);
                let mut t = crate::text::str_to_chars(m.as_str());
                out.append(&mut t);
            },
            ApiError::Offline { resource } => {
                let mut p = crate::text::str_to_chars(
                    "offline mode enabled and no cached response available for ",
                );
                out.append(&mut p);
                let mut t = crate::text::str_to_chars(resource.as_str());
                out.append(&mut t);
            },
            ApiError::Other(m) => {
                let mut t = crate::text::str_to_chars(m.as_str());
                out.append(&mut t);
            },
        }
        crate::text::chars_to_string(&out)
    }
}

} // verus!
