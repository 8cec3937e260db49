use asana_cli::backoff::backoff_delay_ms;
use asana_cli::cache::{
    compute_expires_at, encode_disk_entry, read_disk_entry, DiskRead, MemoryCache,
};
use asana_cli::cachekey::build_cache_key;
use asana_cli::client::{build_url, ClientCore};
use asana_cli::envelope::check_response_body;
use asana_cli::errors::ApiError;
use asana_cli::executor::{
    classify_attempt, pre_flight, run_attempts, AttemptOutcome, AttemptStep, HttpMethod,
    PreFlight, reason_phrase,
};
use asana_cli::options::ApiClientOptions;
use asana_cli::ratelimit::{extract_rate_limit_info, RawRateHeaders};

fn no_headers() -> RawRateHeaders {
    RawRateHeaders {
        limit: None,
        remaining: None,
        reset: None,
        retry_after: None,
    }
}

fn response(status: u16, body: &str) -> AttemptOutcome {
    AttemptOutcome::Response {
        status,
        body: body.as_bytes().to_vec(),
        headers: no_headers(),
    }
}

#[test]
fn backoff_grows_exponentially_and_clamps() {
    assert_eq!(backoff_delay_ms(500, 0), 500);
    assert_eq!(backoff_delay_ms(500, 1), 1000);
    assert_eq!(backoff_delay_ms(500, 2), 2000);
    assert_eq!(backoff_delay_ms(500, 3), 4000);
    // a shift of 32 or more falls back to the base delay
    assert_eq!(backoff_delay_ms(500, 32), 500);
    assert_eq!(backoff_delay_ms(500, 40), 500);
    // a multiplication that overflows falls back to the base delay
    assert_eq!(backoff_delay_ms(u64::MAX / 2, 2), u64::MAX / 2);
    // never zero when the base is positive
    assert!(backoff_delay_ms(1, 31) > 0);
}

#[test]
fn cache_key_ignores_parameter_order() {
    let q1 = vec![
        ("workspace".to_string(), "W1".to_string()),
        ("assignee".to_string(), "me".to_string()),
    ];
    let q2 = vec![
        ("assignee".to_string(), "me".to_string()),
        ("workspace".to_string(), "W1".to_string()),
    ];
    let k1 = build_cache_key("GET", "/tasks", &q1);
    let k2 = build_cache_key("GET", "/tasks", &q2);
    assert_eq!(k1, k2);
    // the key really is a digest: 64 lowercase hex characters
    assert_eq!(k1.len(), 64);
    assert!(k1.chars().all(|c| c.is_ascii_hexdigit() && !c.is_ascii_uppercase()));
    // and it depends on the path
    let k3 = build_cache_key("GET", "/projects", &q1);
    assert_ne!(k1, k3);
}

#[test]
fn memory_cache_round_trip_and_expiry() {
    let mut cache = MemoryCache::new();
    cache.store("key-a", 1000, b"payload".to_vec());
    assert_eq!(cache.lookup("key-a", 999), Some(b"payload".to_vec()));
    // at or past the expiry instant the entry is a miss
    assert_eq!(cache.lookup("key-a", 1000), None);
    assert_eq!(cache.lookup("other", 0), None);
    // storing again under the same key replaces the entry
    cache.store("key-a", 2000, b"fresh".to_vec());
    assert_eq!(cache.lookup("key-a", 1500), Some(b"fresh".to_vec()));
}

#[test]
fn disk_entry_round_trip_cold_start() {
    let body = b"{\"data\":{\"name\":\"Test User\"}}".to_vec();
    let expires = compute_expires_at(1_700_000_000, 300);
    assert_eq!(expires, 1_700_000_300);
    let file = encode_disk_entry(expires, &body);
    // a fresh process reading only the disk record recovers the body
    match read_disk_entry(&file, 1_700_000_100) {
        DiskRead::Hit(recovered) => assert_eq!(recovered, body),
        other => panic!("expected a hit, got {:?}", other),
    }
}

#[test]
fn disk_entry_expired_is_stale() {
    let body = b"cached".to_vec();
    let file = encode_disk_entry(500, &body);
    // now is past expires_at: the entry must be reported stale (the caller
    // deletes the file and treats the lookup as a miss)
    match read_disk_entry(&file, 501) {
        DiskRead::Stale => {}
        other => panic!("expected stale, got {:?}", other),
    }
    // on the boundary the entry is still valid
    match read_disk_entry(&file, 500) {
        DiskRead::Hit(recovered) => assert_eq!(recovered, body),
        other => panic!("expected a hit, got {:?}", other),
    }
}

#[test]
fn disk_entry_corrupt_is_reported() {
    match read_disk_entry("not json at all", 0) {
        DiskRead::Corrupt => {}
        other => panic!("expected corrupt, got {:?}", other),
    }
    match read_disk_entry("{\"expires_at\":12,\"body\":\"!!!\"}", 0) {
        DiskRead::Corrupt => {}
        other => panic!("expected corrupt, got {:?}", other),
    }
}

#[test]
fn retry_ceiling_is_exact() {
    // P-style scenario: max_retries = 2, every attempt answers 503:
    // exactly 3 attempts in all, then the HTTP error surfaces.
    let outcomes = vec![
        response(503, "unavailable"),
        response(503, "unavailable"),
        response(503, "unavailable"),
    ];
    let run = run_attempts(outcomes, 2, 100);
    assert_eq!(run.attempts, 3);
    assert_eq!(run.sleeps, vec![100, 200]);
    match run.result {
        Err(ApiError::Http { status, message, .. }) => {
            assert_eq!(status, 503);
            assert_eq!(message, "unavailable");
        }
        other => panic!("expected an HTTP error, got {:?}", other),
    }
}

#[test]
fn authentication_never_retries() {
    let outcomes = vec![
        response(401, "bad token"),
        response(200, "{\"data\":null}"),
        response(200, "{\"data\":null}"),
        response(200, "{\"data\":null}"),
    ];
    let run = run_attempts(outcomes, 3, 100);
    assert_eq!(run.attempts, 1);
    assert!(run.sleeps.is_empty());
    match run.result {
        Err(ApiError::Authentication(body)) => assert_eq!(body, "bad token"),
        other => panic!("expected an authentication error, got {:?}", other),
    }
}

#[test]
fn rate_limit_retries_honor_retry_after() {
    let first = AttemptOutcome::Response {
        status: 429,
        body: b"rate limited".to_vec(),
        headers: RawRateHeaders {
            limit: Some("150".to_string()),
            remaining: Some("0".to_string()),
            reset: None,
            retry_after: Some("0.1".to_string()),
        },
    };
    let second = response(200, "{\"data\":{\"name\":\"Retry User\"}}");
    let run = run_attempts(vec![first, second], 2, 50);
    assert_eq!(run.attempts, 2);
    // the Retry-After header (0.1 s) wins over the backoff delay
    assert_eq!(run.sleeps, vec![100]);
    assert_eq!(run.result.unwrap(), b"{\"data\":{\"name\":\"Retry User\"}}".to_vec());
    // the 429 recorded a snapshot
    assert_eq!(run.snapshots.len(), 1);
    assert_eq!(run.snapshots[0].limit, Some(150));
    assert_eq!(run.snapshots[0].remaining, Some(0));
    assert_eq!(run.snapshots[0].retry_after_ms, Some(100));
}

#[test]
fn transport_failures_retry_when_transient() {
    let outcomes = vec![
        AttemptOutcome::Transport {
            retriable: true,
            message: "connection reset".to_string(),
        },
        response(200, "{\"data\":null}"),
    ];
    let run = run_attempts(outcomes, 3, 250);
    assert_eq!(run.attempts, 2);
    assert_eq!(run.sleeps, vec![250]);
    assert!(run.result.is_ok());
}

#[test]
fn non_retriable_transport_fails_at_once() {
    let step = classify_attempt(
        AttemptOutcome::Transport {
            retriable: false,
            message: "tls handshake".to_string(),
        },
        0,
        5,
        100,
    );
    match step.step {
        AttemptStep::Done(Err(ApiError::Network(m))) => assert_eq!(m, "tls handshake"),
        other => panic!("expected a network error, got {:?}", other),
    }
}

#[test]
fn empty_error_body_uses_reason_phrase() {
    let step = classify_attempt(response(404, ""), 0, 0, 100);
    match step.step {
        AttemptStep::Done(Err(ApiError::Http { status, message, .. })) => {
            assert_eq!(status, 404);
            assert_eq!(message, "Not Found");
        }
        other => panic!("expected an HTTP error, got {:?}", other),
    }
    assert_eq!(reason_phrase(503), "Service Unavailable");
    assert_eq!(reason_phrase(999), "unknown error");
}

#[test]
fn empty_response_body_is_rejected() {
    let err = check_response_body("/users/me", b"").unwrap_err();
    match err {
        ApiError::Other(message) => assert!(message.contains("empty response")),
        other => panic!("expected a catch-all error, got {:?}", other),
    }
}

#[test]
fn response_missing_data_field_errors() {
    let err = check_response_body("/users/me", b"{ \"foo\": \"bar\" }").unwrap_err();
    match err {
        ApiError::Other(message) => assert!(message.contains("data")),
        other => panic!("expected a catch-all error, got {:?}", other),
    }
}

#[test]
fn envelope_accepts_data_and_errors_and_non_objects() {
    assert!(check_response_body("/x", b"{\"data\": null}").is_ok());
    assert!(check_response_body("/x", b"{\"errors\": []}").is_ok());
    // non-object JSON skips the structural check
    assert!(check_response_body("/x", b"[1, 2, 3]").is_ok());
    assert!(check_response_body("/x", b"42").is_ok());
    // invalid JSON is a deserialization error
    match check_response_body("/x", b"{not json").unwrap_err() {
        ApiError::Deserialize(_) => {}
        other => panic!("expected a deserialization error, got {:?}", other),
    }
}

#[test]
fn pre_flight_serves_cache_and_refuses_offline() {
    match pre_flight(HttpMethod::Get, Some(b"cached".to_vec()), true, "/tasks") {
        PreFlight::UseCached(b) => assert_eq!(b, b"cached".to_vec()),
        other => panic!("expected the cached body, got {:?}", other),
    }
    match pre_flight(HttpMethod::Get, None, true, "/tasks") {
        PreFlight::Refuse(ApiError::Offline { resource }) => assert_eq!(resource, "/tasks"),
        other => panic!("expected an offline refusal, got {:?}", other),
    }
    match pre_flight(HttpMethod::Get, None, false, "/tasks") {
        PreFlight::Proceed => {}
        other => panic!("expected to proceed, got {:?}", other),
    }
    // non-GET methods never consult the cache
    match pre_flight(HttpMethod::Post, None, true, "/tasks") {
        PreFlight::Proceed => {}
        other => panic!("expected to proceed, got {:?}", other),
    }
}

#[test]
fn rate_limit_headers_parse() {
    let info = extract_rate_limit_info(&RawRateHeaders {
        limit: Some("150".to_string()),
        remaining: Some("149".to_string()),
        reset: Some("1234567890".to_string()),
        retry_after: None,
    })
    .expect("rate limit info");
    assert_eq!(info.limit, Some(150));
    assert_eq!(info.remaining, Some(149));
    assert_eq!(info.reset, Some(1_234_567_890));
    assert!(info.retry_after_ms.is_none());

    assert!(extract_rate_limit_info(&no_headers()).is_none());

    let fractional = extract_rate_limit_info(&RawRateHeaders {
        limit: None,
        remaining: None,
        reset: None,
        retry_after: Some("1.5".to_string()),
    })
    .expect("retry-after info");
    assert_eq!(fractional.retry_after_ms, Some(1500));
}

#[test]
fn client_core_holds_offline_flag_and_tracker() {
    let token = asana_cli::auth::AuthToken::new("SECRET-REDACTED".to_string());
    let options = ApiClientOptions::new("https://api.example.test/".to_string())
        .with_cache_ttl(60_000)
        .with_offline(false);
    let mut core = ClientCore::new(token, options);
    assert!(!core.is_offline());
    core.set_offline(true);
    assert!(core.is_offline());
    assert!(core.rate_limit_info().is_none());

    core.memory_store("k", 1_000, b"v".to_vec());
    assert_eq!(core.memory_lookup("k", 2_000), Some(b"v".to_vec()));
    assert_eq!(core.memory_lookup("k", 61_001), None);
    assert_eq!(core.authorization_value(), "Bearer SECRET-REDACTED");
}

#[test]
fn build_url_joins_with_one_slash() {
    assert_eq!(build_url("https://h.test/api/", "/users/me"), "https://h.test/api/users/me");
    assert_eq!(build_url("https://h.test/api", "users/me"), "https://h.test/api/users/me");
    assert_eq!(build_url("https://h.test/api//", "//users"), "https://h.test/api/users");
}

#[test]
fn token_is_redacted_outside_the_header() {
    let token = asana_cli::auth::AuthToken::new("SECRET-REDACTED".to_string());
    assert_eq!(token.redacted(), "<redacted token>");
    assert_eq!(token.expose(), "SECRET-REDACTED");
}

#[test]
fn error_messages_render() {
    let e = ApiError::Http {
        status: 503,
        message: "Service Unavailable".to_string(),
        error_messages: Vec::new(),
    };
    assert_eq!(e.message(), "HTTP 503: Service Unavailable");
    let r = ApiError::RateLimited {
        retry_after_ms: 1500,
        body: "slow down".to_string(),
    };
    assert_eq!(r.message(), "rate limited after 1500 ms: slow down");
}

#[test]
fn end_to_end_get_users_me() {
    // One 200 response, zero retries, one cache entry under the canonical
    // GET /users/me key with an empty query.
    let key = build_cache_key("GET", "/users/me", &Vec::new());
    let body = b"{\"data\":{\"name\":\"Test User\"}}".to_vec();

    let run = run_attempts(
        vec![response(200, "{\"data\":{\"name\":\"Test User\"}}")],
        3,
        500,
    );
    assert_eq!(run.attempts, 1);
    assert!(run.sleeps.is_empty());
    let fetched = run.result.expect("success");
    assert_eq!(fetched, body);

    // the envelope gate passes
    assert!(check_response_body("/users/me", &fetched).is_ok());

    // the decoded value carries the expected name
    let value: serde_json::Value = serde_json::from_slice(&fetched).unwrap();
    assert_eq!(value["data"]["name"], "Test User");

    // exactly one cache entry is written, under the derived key
    let mut cache = MemoryCache::new();
    cache.store(&key, 300_000, fetched.clone());
    assert_eq!(cache.lookup(&key, 0), Some(body));
}

#[test]
fn rate_limit_headers_captured_on_success() {
    let outcome = AttemptOutcome::Response {
        status: 200,
        body: b"{\"data\":{\"name\":\"Metrics User\"}}".to_vec(),
        headers: RawRateHeaders {
            limit: Some("150".to_string()),
            remaining: Some("149".to_string()),
            reset: Some("1234567890".to_string()),
            retry_after: None,
        },
    };
    let step = classify_attempt(outcome, 0, 3, 500);
    let info = step.record.expect("rate limit info");
    assert_eq!(info.limit, Some(150));
    assert_eq!(info.remaining, Some(149));
    assert_eq!(info.reset, Some(1_234_567_890));
    assert!(info.retry_after_ms.is_none());
    match step.step {
        AttemptStep::Done(Ok(_)) => {}
        other => panic!("expected success, got {:?}", other),
    }
}

#[test]
fn offline_serves_cached_get() {
    // a successful GET fills the cache; afterwards, offline mode serves
    // the same body without any network attempt
    let key = build_cache_key("GET", "/users/me", &Vec::new());
    let mut cache = MemoryCache::new();
    let body = b"{\"data\":{\"name\":\"Cached User\"}}".to_vec();
    cache.store(&key, 60_000, body.clone());
    let cached = cache.lookup(&key, 10_000);
    match pre_flight(HttpMethod::Get, cached, true, "/users/me") {
        PreFlight::UseCached(b) => assert_eq!(b, body),
        other => panic!("expected the cached body, got {:?}", other),
    }
}
