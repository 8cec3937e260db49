//! The request executor's decision core.
//!
//! One logical HTTP operation is a sequence of attempts. The driver that
//! owns the socket performs one attempt, hands its outcome in, and is told
//! whether to sleep and retry or to finish with a result. Every decision —
//! cache fast path, offline refusal, retry classification, backoff and
//! `Retry-After` waits, rate-limit capture — is verified here;
//! `run_attempts` additionally runs the whole loop over a pre-recorded
//! sequence of outcomes, which is how the retry ceiling and the
//! non-retryable classes are stated and proved.

use vstd::prelude::*;

verus! {

use crate::backoff::spec_backoff_ms;
use crate::backoff::backoff_delay_ms;
use crate::envelope::body_facts_of;
use crate::envelope::bytes_to_text;
use crate::envelope::inspect_body;
use crate::envelope::lossy_text_of;
use crate::errors::ApiError;
use crate::errors::RateLimitInfo;
use crate::errors::SpecApiError;
use crate::ratelimit::RawRateHeaders;
use crate::ratelimit::extract_rate_limit_info;
use crate::ratelimit::parse_hdr_retry_after;
use crate::ratelimit::spec_hdr_retry_after;
use crate::ratelimit::spec_rate_limit_info;

/// What one attempt at sending the request came back with.
#[derive(Debug, Clone, PartialEq, Eq)]
pub enum AttemptOutcome {
    /// The transport failed before a response arrived. `retriable` is
    /// whether the failure was a timeout or a connection failure.
    Transport {
        /// Timeout or connection failure, as opposed to any other
        /// transport-level error.
        retriable: bool,
        /// The transport error rendered as text.
        message: String,
    },
    /// A response arrived.
    Response {
        /// HTTP status code.
        status: u16,
        /// Raw response body.
        body: Vec<u8>,
        /// The rate-limit-relevant headers, unparsed.
        headers: RawRateHeaders,
    },
}

/// What the executor does after one attempt.
#[derive(Debug)]
pub enum AttemptStep {
    /// Sleep for the given delay, then send the request again.
    Retry {
        /// Milliseconds to sleep before the next attempt.
        delay_ms: u64,
    },
    /// The operation is finished with this result.
    Done(Result<Vec<u8>, ApiError>),
}

/// The decision for one attempt, together with the rate-limit snapshot to
/// record, if the response carried one.
#[derive(Debug)]
pub struct StepOutcome {
    /// Retry or finish.
    pub step: AttemptStep,
    /// Snapshot to store in the rate-limit tracker.
    pub record: Option<RateLimitInfo>,
}

/// Mathematical image of [`AttemptStep`].
pub enum SpecAttemptStep {
    /// Image of `AttemptStep::Retry`.
    Retry { delay_ms: u64 },
    /// Image of `AttemptStep::Done`.
    Done(Result<Seq<u8>, SpecApiError>),
}

/// Mathematical image of [`StepOutcome`].
pub struct SpecStepOutcome {
    /// Image of the decision.
    pub step: SpecAttemptStep,
    /// Image of the snapshot to record.
    pub record: Option<RateLimitInfo>,
}

impl View for AttemptStep {
    type V = SpecAttemptStep;

    open spec fn view(&self) -> SpecAttemptStep {
        match self {
            AttemptStep::Retry { delay_ms } => (SpecAttemptStep::Retry { delay_ms: *delay_ms }),
            AttemptStep::Done(res) => SpecAttemptStep::Done(
                match res {
                    Ok(b) => Ok(b@),
                    Err(e) => Err(e@),
                },
            ),
        }
    }
}

impl View for StepOutcome {
    type V = SpecStepOutcome;

    open spec fn view(&self) -> SpecStepOutcome {
        SpecStepOutcome { step: self.step@, record: self.record }
    }
}

/// The canonical reason phrase for a status code, used as the error message
/// when an error response has an empty body; codes outside the table give
/// `"unknown error"`.
pub open spec fn spec_reason_phrase(status: u16) -> Seq<char> {
    if status == 100 {
        "Continue"@
    } else if status == 101 {
        "Switching Protocols"@
    } else if status == 200 {
        "OK"@
    } else if status == 201 {
        "Created"@
    } else if status == 202 {
        "Accepted"@
    } else if status == 203 {
        "Non Authoritative Information"@
    } else if status == 204 {
        "No Content"@
    } else if status == 205 {
        "Reset Content"@
    } else if status == 206 {
        "Partial Content"@
    } else if status == 300 {
        "Multiple Choices"@
    } else if status == 301 {
        "Moved Permanently"@
    } else if status == 302 {
        "Found"@
    } else if status == 303 {
        "See Other"@
    } else if status == 304 {
        "Not Modified"@
    } else if status == 307 {
        "Temporary Redirect"@
    } else if status == 308 {
        "Permanent Redirect"@
    } else if status == 400 {
        "Bad Request"@
    } else if status == 401 {
        "Unauthorized"@
    } else if status == 402 {
        "Payment Required"@
    } else if status == 403 {
        "Forbidden"@
    } else if status == 404 {
        "Not Found"@
    } else if status == 405 {
        "Method Not Allowed"@
    } else if status == 406 {
        "Not Acceptable"@
    } else if status == 407 {
        "Proxy Authentication Required"@
    } else if status == 408 {
        "Request Timeout"@
    } else if status == 409 {
        "Conflict"@
    } else if status == 410 {
        "Gone"@
    } else if status == 411 {
        "Length Required"@
    } else if status == 412 {
        "Precondition Failed"@
    } else if status == 413 {
        "Payload Too Large"@
    } else if status == 414 {
        "URI Too Long"@
    } else if status == 415 {
        "Unsupported Media Type"@
    } else if status == 416 {
        "Range Not Satisfiable"@
    } else if status == 417 {
        "Expectation Failed"@
    } else if status == 418 {
        "I'm a teapot"@
    } else if status == 422 {
        "Unprocessable Entity"@
    } else if status == 429 {
        "Too Many Requests"@
    } else if status == 431 {
        "Request Header Fields Too Large"@
    } else if status == 500 {
        "Internal Server Error"@
    } else if status == 501 {
        "Not Implemented"@
    } else if status == 502 {
        "Bad Gateway"@
    } else if status == 503 {
        "Service Unavailable"@
    } else if status == 504 {
        "Gateway Timeout"@
    } else if status == 505 {
        "HTTP Version Not Supported"@
    } else {
        "unknown error"@
    }
}

/// The canonical reason phrase for a status code.
pub fn reason_phrase(status: u16) -> (r: String)
    ensures
        r@ == spec_reason_phrase(status),
{
    let s: &str = if status == 100 {
        "Continue"
    } else if status == 101 {
        "Switching Protocols"
    } else if status == 200 {
        "OK"
    } else if status == 201 {
        "Created"
    } else if status == 202 {
        "Accepted"
    } else if status == 203 {
        "Non Authoritative Information"
    } else if status == 204 {
        "No Content"
    } else if status == 205 {
        "Reset Content"
    } else if status == 206 {
        "Partial Content"
    } else if status == 300 {
        "Multiple Choices"
    } else if status == 301 {
        "Moved Permanently"
    } else if status == 302 {
        "Found"
    } else if status == 303 {
        "See Other"
    } else if status == 304 {
        "Not Modified"
    } else if status == 307 {
        "Temporary Redirect"
    } else if status == 308 {
        "Permanent Redirect"
    } else if status == 400 {
        "Bad Request"
    } else if status == 401 {
        "Unauthorized"
    } else if status == 402 {
        "Payment Required"
    } else if status == 403 {
        "Forbidden"
    } else if status == 404 {
        "Not Found"
    } else if status == 405 {
        "Method Not Allowed"
    } else if status == 406 {
        "Not Acceptable"
    } else if status == 407 {
        "Proxy Authentication Required"
    } else if status == 408 {
        "Request Timeout"
    } else if status == 409 {
        "Conflict"
    } else if status == 410 {
        "Gone"
    } else if status == 411 {
        "Length Required"
    } else if status == 412 {
        "Precondition Failed"
    } else if status == 413 {
        "Payload Too Large"
    } else if status == 414 {
        "URI Too Long"
    } else if status == 415 {
        "Unsupported Media Type"
    } else if status == 416 {
        "Range Not Satisfiable"
    } else if status == 417 {
        "Expectation Failed"
    } else if status == 418 {
        "I'm a teapot"
    } else if status == 422 {
        "Unprocessable Entity"
    } else if status == 429 {
        "Too Many Requests"
    } else if status == 431 {
        "Request Header Fields Too Large"
    } else if status == 500 {
        "Internal Server Error"
    } else if status == 501 {
        "Not Implemented"
    } else if status == 502 {
        "Bad Gateway"
    } else if status == 503 {
        "Service Unavailable"
    } else if status == 504 {
        "Gateway Timeout"
    } else if status == 505 {
        "HTTP Version Not Supported"
    } else {
        "unknown error"
    };
    let v = crate::text::str_to_chars(s);
    crate::text::chars_to_string(&v)
}

/// The `errors[].message` strings of a body, empty when the body is not a
/// JSON object carrying them.
pub open spec fn spec_error_messages_of(b: Seq<u8>) -> Seq<Seq<char>> {
    match body_facts_of(b) {
        Some(t) => t.3,
        None => Seq::empty(),
    }
}

/// The decision table for one attempt (spec 429/401/5xx handling).
pub open spec fn spec_classify_attempt(
    o: AttemptOutcome,
    attempt: int,
    max_retries: int,
    base_ms: u64,
) -> SpecStepOutcome {
    match o {
        AttemptOutcome::Transport { retriable, message } => if retriable && attempt
            < max_retries {
            SpecStepOutcome {
                step: SpecAttemptStep::Retry {
                    delay_ms: spec_backoff_ms(base_ms, attempt as nat),
                },
                record: None,
            }
        } else {
            SpecStepOutcome {
                step: SpecAttemptStep::Done(Err(SpecApiError::Network(message@))),
                record: None,
            }
        },
        AttemptOutcome::Response { status, body, headers } => if 200 <= status < 300 {
            SpecStepOutcome {
                step: SpecAttemptStep::Done(Ok(body@)),
                record: spec_rate_limit_info(headers),
            }
        } else if status == 429 {
            let wait = match spec_hdr_retry_after(headers.retry_after) {
                Some(w) => w,
                None => spec_backoff_ms(base_ms, attempt as nat),
            };
            if attempt < max_retries {
                SpecStepOutcome {
                    step: SpecAttemptStep::Retry { delay_ms: wait },
                    record: spec_rate_limit_info(headers),
                }
            } else {
                SpecStepOutcome {
                    step: SpecAttemptStep::Done(
                        Err(
                            SpecApiError::RateLimited {
                                retry_after_ms: wait,
                                body: lossy_text_of(body@),
                            },
                        ),
                    ),
                    record: spec_rate_limit_info(headers),
                }
            }
        } else if status == 401 || status == 403 {
            SpecStepOutcome {
                step: SpecAttemptStep::Done(
                    Err(SpecApiError::Authentication(lossy_text_of(body@))),
                ),
                record: None,
            }
        } else if 500 <= status < 600 && attempt < max_retries {
            SpecStepOutcome {
                step: SpecAttemptStep::Retry {
                    delay_ms: spec_backoff_ms(base_ms, attempt as nat),
                },
                record: None,
            }
        } else {
            SpecStepOutcome {
                step: SpecAttemptStep::Done(
                    Err(
                        SpecApiError::Http {
                            status,
                            message: if body@.len() == 0 {
                                spec_reason_phrase(status)
                            } else {
                                lossy_text_of(body@)
                            },
                            error_messages: spec_error_messages_of(body@),
                        },
                    ),
                ),
                record: None,
            }
        },
    }
}

/// Decide what to do after one attempt: retry after a sleep, or finish.
///
/// Transport timeouts and connection failures, HTTP 429 and HTTP 5xx are
/// retried while attempts remain; 401/403 fail immediately; 2xx succeeds.
/// The 429 wait honours a parseable `Retry-After` header, falling back to
/// the exponential backoff delay.
pub fn classify_attempt(o: AttemptOutcome, attempt: usize, max_retries: usize, base_ms: u64) -> (r:
    StepOutcome)
    ensures
        r@ == spec_classify_attempt(o, attempt as int, max_retries as int, base_ms),
{
    match o {
        AttemptOutcome::Transport { retriable, message } => {
            if retriable && attempt < max_retries {
                StepOutcome {
                    step: AttemptStep::Retry { delay_ms: backoff_delay_ms(base_ms, attempt) },
                    record: None,
                }
            } else {
                StepOutcome { step: AttemptStep::Done(Err(ApiError::Network(message))), record: None }
            }
        },
        AttemptOutcome::Response { status, body, headers } => {
            if 200 <= status && status < 300 {
                let record = extract_rate_limit_info(&headers);
                StepOutcome { step: AttemptStep::Done(Ok(body)), record }
            } else if status == 429 {
                let record = extract_rate_limit_info(&headers);
                let wait = match parse_hdr_retry_after(&headers.retry_after) {
                    Some(w) => w,
                    None => backoff_delay_ms(base_ms, attempt),
                };
                if attempt < max_retries {
                    StepOutcome { step: AttemptStep::Retry { delay_ms: wait }, record }
                } else {
                    let text = bytes_to_text(body.as_slice());
                    StepOutcome {
                        step: AttemptStep::Done(
                            Err(ApiError::RateLimited { retry_after_ms: wait, body: text }),
                        ),
                        record,
                    }
                }
            } else if status == 401 || status == 403 {
                let text = bytes_to_text(body.as_slice());
                StepOutcome {
                    step: AttemptStep::Done(Err(ApiError::Authentication(text))),
                    record: None,
                }
            } else if 500 <= status && status < 600 && attempt < max_retries {
                StepOutcome {
                    step: AttemptStep::Retry { delay_ms: backoff_delay_ms(base_ms, attempt) },
                    record: None,
                }
            } else {
                let message = if body.len() == 0 {
                    reason_phrase(status)
                } else {
                    bytes_to_text(body.as_slice())
                };
                let facts = inspect_body(body.as_slice());
                let error_messages = if facts.parsed {
                    facts.error_messages
                } else {
                    Vec::new()
                };
                proof {
                    if body_facts_of(body@) is None {
                        assert(error_messages.deep_view() =~= spec_error_messages_of(body@));
                    }
                }
                StepOutcome {
                    step: AttemptStep::Done(
                        Err(ApiError::Http { status, message, error_messages }),
                    ),
                    record: None,
                }
            }
        },
    }
}

} // verus!

verus! {

use crate::errors::SpecApiError as SErr;

/// HTTP methods the client issues.
#[derive(Debug, Clone, Copy, PartialEq, Eq, Structural)]
pub enum HttpMethod {
    /// GET — cached and replayable.
    Get,
    /// POST.
    Post,
    /// PUT.
    Put,
    /// DELETE.
    Delete,
}

/// What to do before entering the retry loop.
#[derive(Debug)]
pub enum PreFlight {
    /// A cached body answers the request; no network call is made.
    UseCached(Vec<u8>),
    /// Offline with no cached entry: fail without touching the network.
    Refuse(ApiError),
    /// Go on to the network.
    Proceed,
}

/// The unconditional fast path of every request: a GET answered from cache
/// returns immediately; a GET while offline with no cached entry is refused;
/// everything else proceeds to the network.
pub fn pre_flight(method: HttpMethod, cached: Option<Vec<u8>>, offline: bool, path: &str) -> (r:
    PreFlight)
    ensures
        cached matches Some(b) ==> (method == HttpMethod::Get ==> (r matches
        PreFlight::UseCached(c) && c@ == b@)),
        method == HttpMethod::Get && cached is None && offline ==> (r matches PreFlight::Refuse(e)
            && e@ == (SErr::Offline { resource: path@ })),
        (method != HttpMethod::Get || (cached is None && !offline)) ==> r is Proceed,
{
    if method == HttpMethod::Get {
        match cached {
            Some(b) => PreFlight::UseCached(b),
            None => {
                if offline {
                    let v = crate::text::str_to_chars(path);
                    PreFlight::Refuse(
                        ApiError::Offline { resource: crate::text::chars_to_string(&v) },
                    )
                } else {
                    PreFlight::Proceed
                }
            },
        }
    } else {
        PreFlight::Proceed
    }
}

/// The image of a finished request's result.
pub open spec fn spec_result_view(r: Result<Vec<u8>, ApiError>) -> Result<Seq<u8>, SpecApiError> {
    match r {
        Ok(b) => Ok(b@),
        Err(e) => Err(e@),
    }
}

/// The rate-limit snapshots recorded by the first `k` attempts, in order.
pub open spec fn spec_records_upto(
    outcomes: Seq<AttemptOutcome>,
    k: int,
    max_retries: int,
    base_ms: u64,
) -> Seq<RateLimitInfo>
    decreases k,
{
    if k <= 0 {
        Seq::empty()
    } else {
        let prev = spec_records_upto(outcomes, k - 1, max_retries, base_ms);
        match spec_classify_attempt(outcomes[k - 1], k - 1, max_retries, base_ms).record {
            Some(info) => prev.push(info),
            None => prev,
        }
    }
}

/// A completed run of the retry loop over the given attempt outcomes:
/// every attempt before the last was classified "retry", and the last was
/// classified "done" with the run's result.
pub open spec fn spec_run_trace(
    outcomes: Seq<AttemptOutcome>,
    max_retries: int,
    base_ms: u64,
    attempts: int,
    result: Result<Seq<u8>, SpecApiError>,
) -> bool {
    &&& 1 <= attempts <= max_retries + 1
    &&& attempts <= outcomes.len()
    &&& forall|i: int|
        0 <= i < attempts - 1 ==> (#[trigger] spec_classify_attempt(
            outcomes[i],
            i,
            max_retries,
            base_ms,
        )).step is Retry
    &&& spec_classify_attempt(outcomes[attempts - 1], attempts - 1, max_retries, base_ms).step
        == SpecAttemptStep::Done(result)
}

/// A finished request: its result, how many attempts it took, the sleeps
/// between them, and the rate-limit snapshots recorded along the way.
#[derive(Debug)]
pub struct RunOutcome {
    /// The final result handed to the caller.
    pub result: Result<Vec<u8>, ApiError>,
    /// Total attempts consumed (retries + 1 at most).
    pub attempts: usize,
    /// The delays slept between attempts, in milliseconds.
    pub sleeps: Vec<u64>,
    /// Every rate-limit snapshot recorded, oldest first.
    pub snapshots: Vec<RateLimitInfo>,
}

/// Run the whole retry loop over a pre-recorded sequence of attempt
/// outcomes. This is the executor's loop with the transport factored out:
/// outcome `i` is what attempt `i` came back with.
#[verifier::loop_isolation(false)]
pub fn run_attempts(outcomes: Vec<AttemptOutcome>, max_retries: usize, base_ms: u64) -> (r:
    RunOutcome)
    requires
        outcomes@.len() > max_retries,
    ensures
        spec_run_trace(
            outcomes@,
            max_retries as int,
            base_ms,
            r.attempts as int,
            spec_result_view(r.result),
        ),
        r.sleeps@.len() == r.attempts - 1,
        forall|i: int|
            0 <= i < r.attempts - 1 ==> (#[trigger] spec_classify_attempt(
                outcomes@[i],
                i,
                max_retries as int,
                base_ms,
            )).step == (SpecAttemptStep::Retry { delay_ms: r.sleeps@[i] }),
        r.snapshots@ == spec_records_upto(
            outcomes@,
            r.attempts as int,
            max_retries as int,
            base_ms,
        ),
{
    let ghost orig = outcomes@;
    let mut rest = outcomes;
    let total = rest.len();
    assert(orig.len() <= usize::MAX);
    let mut attempt: usize = 0;
    let mut sleeps: Vec<u64> = Vec::new();
    let mut snapshots: Vec<RateLimitInfo> = Vec::new();
    loop
        invariant
            orig.len() > max_retries,
            orig.len() <= usize::MAX,
            0 <= attempt <= max_retries,
            attempt < orig.len(),
            rest@ == orig.skip(attempt as int),
            forall|i: int|
                0 <= i < attempt ==> (#[trigger] spec_classify_attempt(
                    orig[i],
                    i,
                    max_retries as int,
                    base_ms,
                )).step is Retry,
            sleeps@.len() == attempt,
            forall|i: int|
                0 <= i < attempt ==> (#[trigger] spec_classify_attempt(
                    orig[i],
                    i,
                    max_retries as int,
                    base_ms,
                )).step == (SpecAttemptStep::Retry { delay_ms: sleeps@[i] }),
            snapshots@ == spec_records_upto(orig, attempt as int, max_retries as int, base_ms),
        decreases orig.len() - attempt,
    {
        let o = rest.remove(0);
        proof {
            assert(o == orig[attempt as int]);
            assert(rest@ =~= orig.skip(attempt as int + 1));
        }
        let step = classify_attempt(o, attempt, max_retries, base_ms);
        match step.record {
            Some(info) => snapshots.push(info),
            None => {},
        }
        proof {
            assert(snapshots@ =~= spec_records_upto(
                orig,
                attempt as int + 1,
                max_retries as int,
                base_ms,
            ));
        }
        match step.step {
            AttemptStep::Retry { delay_ms } => {
                assert(spec_classify_attempt(
                    orig[attempt as int],
                    attempt as int,
                    max_retries as int,
                    base_ms,
                ).step is Retry);
                assert(attempt < max_retries);
                sleeps.push(delay_ms);
                attempt = attempt + 1;
            },
            AttemptStep::Done(res) => {
                proof {
                    assert(step@.step == spec_classify_attempt(
                        orig[attempt as int],
                        attempt as int,
                        max_retries as int,
                        base_ms,
                    ).step);
                    assert(step@.step == SpecAttemptStep::Done(spec_result_view(res)));
                }
                return RunOutcome { result: res, attempts: attempt + 1, sleeps, snapshots };
            },
        }
    }
}

/// Retry ceiling: a request whose every attempt comes back as the same
/// server error (5xx) is attempted exactly `max_retries + 1` times in all,
/// and then fails with the HTTP error for that status.
pub proof fn lemma_retry_ceiling(
    outcomes: Seq<AttemptOutcome>,
    max_retries: int,
    base_ms: u64,
    attempts: int,
    result: Result<Seq<u8>, SpecApiError>,
    status: u16,
)
    requires
        max_retries >= 0,
        outcomes.len() > max_retries,
        500 <= status < 600,
        forall|i: int|
            0 <= i <= max_retries ==> ((#[trigger] outcomes[i]) matches
            AttemptOutcome::Response { status: s, .. } && s == status),
        spec_run_trace(outcomes, max_retries, base_ms, attempts, result),
    ensures
        attempts == max_retries + 1,
        (result matches Err(e) && e matches SpecApiError::Http { status: s, .. } && s == status),
{
    if attempts <= max_retries {
        assert(outcomes[attempts - 1] matches AttemptOutcome::Response { status: s, .. } && s
            == status);
        assert(spec_classify_attempt(
            outcomes[attempts - 1],
            attempts - 1,
            max_retries,
            base_ms,
        ).step is Retry);
        assert(false);
    }
    assert(outcomes[max_retries] matches AttemptOutcome::Response { status: s, .. } && s
        == status);
}

/// Non-retry classes: a 401 (or 403) response is returned as an
/// authentication error after exactly one attempt, whatever `max_retries`
/// allows.
pub proof fn lemma_auth_no_retry(
    outcomes: Seq<AttemptOutcome>,
    max_retries: int,
    base_ms: u64,
    attempts: int,
    result: Result<Seq<u8>, SpecApiError>,
)
    requires
        max_retries >= 0,
        outcomes.len() > max_retries,
        (outcomes[0] matches AttemptOutcome::Response { status, .. } && (status == 401 || status
            == 403)),
        spec_run_trace(outcomes, max_retries, base_ms, attempts, result),
    ensures
        attempts == 1,
        (outcomes[0] matches AttemptOutcome::Response { body, .. } ==> result == Err::<
            Seq<u8>,
            SpecApiError,
        >(SpecApiError::Authentication(lossy_text_of(body@)))),
{
    assert(spec_classify_attempt(outcomes[0], 0, max_retries, base_ms).step matches
        SpecAttemptStep::Done(r2) && r2 is Err);
    if attempts > 1 {
        assert(spec_classify_attempt(outcomes[0], 0, max_retries, base_ms).step is Retry);
        assert(false);
    }
}

} // verus!
