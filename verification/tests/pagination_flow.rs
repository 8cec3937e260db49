use asana_cli::errors::ApiError;
use asana_cli::pagination::{
    is_offset_expired, run_pagination, FetchOutcome, ListResponse, PageCursor, PaginationInfo,
};

fn page(items: &[&str], offset: Option<&str>) -> FetchOutcome<String> {
    FetchOutcome::Success(ListResponse {
        data: items.iter().map(|s| s.to_string()).collect(),
        next_page: offset.map(|o| PaginationInfo {
            offset: Some(o.to_string()),
            path: Some("/items".to_string()),
            uri: None,
        }),
    })
}

fn offset_expired_error() -> ApiError {
    ApiError::Http {
        status: 400,
        message: "bad request".to_string(),
        error_messages: vec!["offset is invalid or expired".to_string()],
    }
}

#[test]
fn pagination_yields_every_page_then_ends() {
    // offsets on pages 1..N-1, absent on page N: exactly N pages, no error
    let fetches = vec![
        page(&["1", "2"], Some("a")),
        page(&["3"], Some("b")),
        page(&["4", "5"], None),
    ];
    let run = run_pagination(fetches, None);
    assert_eq!(run.pages.len(), 3);
    assert_eq!(run.pages[0], vec!["1", "2"]);
    assert_eq!(run.pages[1], vec!["3"]);
    assert_eq!(run.pages[2], vec!["4", "5"]);
    assert!(run.error.is_none());
}

#[test]
fn pagination_token_expiry_ends_cleanly() {
    // page 2 fails with a 400 naming an expired offset: page 1 stands,
    // the stream ends, and no error is surfaced
    let fetches = vec![
        page(&["1"], Some("abc")),
        FetchOutcome::Failure(offset_expired_error()),
    ];
    let run = run_pagination(fetches, None);
    assert_eq!(run.pages.len(), 1);
    assert_eq!(run.pages[0], vec!["1"]);
    assert!(run.error.is_none());
}

#[test]
fn pagination_other_failures_surface() {
    let fetches: Vec<FetchOutcome<String>> = vec![
        page(&["1"], Some("abc")),
        FetchOutcome::Failure(ApiError::Network("connection reset".to_string())),
    ];
    let run = run_pagination(fetches, None);
    assert_eq!(run.pages.len(), 1);
    match run.error {
        Some(ApiError::Network(m)) => assert_eq!(m, "connection reset"),
        other => panic!("expected the network error, got {:?}", other),
    }
}

#[test]
fn pagination_limit_truncates_last_page() {
    // max_items = 3, pages of sizes [2, 2]: page 1 intact, page 2 cut to
    // one item, then the stream ends although page 2 carried a token
    let fetches = vec![
        page(&["1", "2"], Some("a")),
        page(&["3", "4"], Some("b")),
        page(&["5"], None),
    ];
    let run = run_pagination(fetches, Some(3));
    assert_eq!(run.pages.len(), 2);
    assert_eq!(run.pages[0], vec!["1", "2"]);
    assert_eq!(run.pages[1], vec!["3"]);
    assert!(run.error.is_none());
}

#[test]
fn pagination_limit_already_reached_fetches_nothing() {
    let fetches = vec![page(&["1"], Some("a"))];
    let run = run_pagination(fetches, Some(0));
    assert!(run.pages.is_empty());
    assert!(run.error.is_none());
}

#[test]
fn offset_expiry_detection_is_selective() {
    assert!(is_offset_expired(&offset_expired_error()));
    // the top-level message alone can carry the marker
    assert!(is_offset_expired(&ApiError::Http {
        status: 400,
        message: "the OFFSET you sent has EXPIRED".to_string(),
        error_messages: Vec::new(),
    }));
    // a 400 without the marker is a real error
    assert!(!is_offset_expired(&ApiError::Http {
        status: 400,
        message: "missing workspace".to_string(),
        error_messages: Vec::new(),
    }));
    // other statuses never count as token expiry
    assert!(!is_offset_expired(&ApiError::Http {
        status: 500,
        message: "offset expired".to_string(),
        error_messages: Vec::new(),
    }));
    assert!(!is_offset_expired(&ApiError::Network("offset expired".to_string())));
}

#[test]
fn cursor_counts_and_stops() {
    let mut cursor: PageCursor = PageCursor::new(Some(3));
    assert!(cursor.wants_fetch());
    let first = cursor.on_page(
        vec!["1".to_string(), "2".to_string()],
        Some("tok".to_string()),
    );
    assert_eq!(first.len(), 2);
    assert_eq!(cursor.emitted, 2);
    assert!(!cursor.done);
    let second = cursor.on_page(
        vec!["3".to_string(), "4".to_string()],
        Some("tok2".to_string()),
    );
    assert_eq!(second, vec!["3".to_string()]);
    assert_eq!(cursor.emitted, 3);
    assert!(cursor.done);
    assert!(!cursor.wants_fetch());
}

#[test]
fn pagination_info_exposes_offset() {
    let info = PaginationInfo {
        offset: Some("abc".to_string()),
        path: None,
        uri: None,
    };
    assert_eq!(info.offset(), Some("abc"));
    let response: ListResponse<String> = ListResponse {
        data: Vec::new(),
        next_page: Some(info),
    };
    assert!(response.has_more());
    let last: ListResponse<String> = ListResponse { data: Vec::new(), next_page: None };
    assert!(!last.has_more());
}
