//! Rate-limit telemetry: header parsing and the process-wide tracker.
//!
//! The driver that performs HTTP hands the four relevant header values over
//! as raw strings; parsing them and deciding what to retain is verified
//! logic. The tracker holds exactly one snapshot — the most recent.

use vstd::prelude::*;

verus! {

use crate::errors::RateLimitInfo;
use crate::num::spec_parse_u64;
use crate::num::spec_retry_after_ms;

/// The rate-limit-relevant response headers, as received (unparsed).
#[derive(Debug, Clone, PartialEq, Eq)]
pub struct RawRateHeaders {
    /// `X-RateLimit-Limit`.
    pub limit: Option<String>,
    /// `X-RateLimit-Remaining`.
    pub remaining: Option<String>,
    /// `X-RateLimit-Reset`.
    pub reset: Option<String>,
    /// `Retry-After` (decimal seconds).
    pub retry_after: Option<String>,
}

impl RawRateHeaders {
    /// A header set with nothing present.
    pub fn none() -> (r: RawRateHeaders)
        ensures
            r == (RawRateHeaders {
                limit: None::<String>,
                remaining: None::<String>,
                reset: None::<String>,
                retry_after: None::<String>,
            }),
    {
        RawRateHeaders { limit: None, remaining: None, reset: None, retry_after: None }
    }
}

/// A header value parsed as `u32`, or nothing when absent or unparseable.
pub open spec fn spec_hdr_u32(h: Option<String>) -> Option<u32> {
    match h {
        Some(s) => match spec_parse_u64(s@) {
            Some(v) => if v <= u32::MAX {
                Some(v as u32)
            } else {
                None
            },
            None => None,
        },
        None => None,
    }
}

/// A header value parsed as `u64`, or nothing when absent or unparseable.
pub open spec fn spec_hdr_u64(h: Option<String>) -> Option<u64> {
    match h {
        Some(s) => spec_parse_u64(s@),
        None => None,
    }
}

/// The `Retry-After` header as milliseconds, or nothing.
pub open spec fn spec_hdr_retry_after(h: Option<String>) -> Option<u64> {
    match h {
        Some(s) => spec_retry_after_ms(s@),
        None => None,
    }
}

/// The snapshot carried by a header set: present as soon as any one of the
/// four fields parses, absent when none does.
pub open spec fn spec_rate_limit_info(h: RawRateHeaders) -> Option<RateLimitInfo> {
    let limit = spec_hdr_u32(h.limit);
    let remaining = spec_hdr_u32(h.remaining);
    let reset = spec_hdr_u64(h.reset);
    let retry_after_ms = spec_hdr_retry_after(h.retry_after);
    if limit is None && remaining is None && reset is None && retry_after_ms is None {
        None
    } else {
        Some(RateLimitInfo { limit, remaining, reset, retry_after_ms })
    }
}

fn parse_hdr_u32(h: &Option<String>) -> (r: Option<u32>)
    ensures
        r == spec_hdr_u32(*h),
{
    match h {
        Some(s) => {
            let v = crate::text::str_to_chars(s.as_str());
            crate::num::parse_u32_chars(&v)
        },
        None => None,
    }
}

fn parse_hdr_u64(h: &Option<String>) -> (r: Option<u64>)
    ensures
        r == spec_hdr_u64(*h),
{
    match h {
        Some(s) => {
            let v = crate::text::str_to_chars(s.as_str());
            crate::num::parse_u64_chars(&v)
        },
        None => None,
    }
}

/// Read the `Retry-After` header as milliseconds.
pub fn parse_hdr_retry_after(h: &Option<String>) -> (r: Option<u64>)
    ensures
        r == spec_hdr_retry_after(*h),
{
    match h {
        Some(s) => crate::num::parse_retry_after_millis(s.as_str()),
        None => None,
    }
}

/// Parse a header set into a snapshot, when any field is usable.
pub fn extract_rate_limit_info(h: &RawRateHeaders) -> (r: Option<RateLimitInfo>)
    ensures
        r == spec_rate_limit_info(*h),
{
    let limit = parse_hdr_u32(&h.limit);
    let remaining = parse_hdr_u32(&h.remaining);
    let reset = parse_hdr_u64(&h.reset);
    let retry_after_ms = parse_hdr_retry_after(&h.retry_after);
    if limit.is_none() && remaining.is_none() && reset.is_none() && retry_after_ms.is_none() {
        None
    } else {
        Some(RateLimitInfo { limit, remaining, reset, retry_after_ms })
    }
}

/// Holder for the most recently observed rate-limit snapshot.
///
/// Exactly one snapshot is retained; every recording overwrites the last.
/// Synchronization across concurrent tasks is the caller's concern.
#[derive(Debug, Clone, PartialEq, Eq)]
pub struct RateLimitTracker {
    latest: Option<RateLimitInfo>,
}

impl RateLimitTracker {
    /// The retained snapshot.
    pub closed spec fn spec_current(&self) -> Option<RateLimitInfo> {
        self.latest
    }

    /// A tracker that has seen no rate-limit headers yet.
    pub fn new() -> (r: RateLimitTracker)
        ensures
            r.spec_current() is None,
    {
        RateLimitTracker { latest: None }
    }

    /// Overwrite the retained snapshot.
    pub fn record(&mut self, info: RateLimitInfo)
        ensures
            final(self).spec_current() == Some(info),
    {
        self.latest = Some(info);
    }

    /// A copy of the latest snapshot, or nothing if none was recorded.
    pub fn current(&self) -> (r: Option<RateLimitInfo>)
        ensures
            r == self.spec_current(),
    {
        self.latest
    }
}

} // verus!
