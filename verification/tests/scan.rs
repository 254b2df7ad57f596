use aws_lib::dynamodb::{ScanFailure, ScanPage, ScanState};

/// A record type as a scan caller would deserialize it.
#[derive(Debug, Clone, PartialEq, Eq)]
struct Order {
    id: u64,
}

#[test]
fn scan_two_pages_in_order() {
    // Table "Orders": page 1 = [{id:1},{id:2}] with token "T1",
    // page 2 = [{id:3}] with no token. The scan must return
    // [{id:1},{id:2},{id:3}] after exactly 2 requests.
    let pages: Vec<ScanPage<Order, String>> = vec![
        ScanPage {
            items: vec![Order { id: 1 }, Order { id: 2 }],
            next_token: Some("T1".to_string()),
        },
        ScanPage { items: vec![Order { id: 3 }], next_token: None },
    ];
    let mut state: ScanState<Order, String> = ScanState::new();
    let mut requests: u64 = 0;
    for page in pages {
        assert!(state.needs_request());
        requests += 1;
        state = state.absorb(Ok(page)).unwrap_or_else(|e| panic!("{}", e.message()));
    }
    assert!(!state.needs_request());
    assert_eq!(requests, 2);
    let records = state.take_records();
    assert_eq!(records, vec![Order { id: 1 }, Order { id: 2 }, Order { id: 3 }]);
}

#[test]
fn scan_empty_table_issues_one_request() {
    // Zero items and no token: the first request must still go out, and the
    // scan terminates right after it.
    let mut state: ScanState<Order, String> = ScanState::new();
    assert!(state.needs_request());
    assert!(state.token().is_none());
    let mut requests: u64 = 0;
    while state.needs_request() {
        requests += 1;
        let page: ScanPage<Order, String> = ScanPage { items: vec![], next_token: None };
        state = state.absorb(Ok(page)).unwrap_or_else(|e| panic!("{}", e.message()));
    }
    assert_eq!(requests, 1);
    assert!(state.take_records().is_empty());
}

#[test]
fn scan_carries_token_between_requests() {
    let state: ScanState<Order, String> = ScanState::new();
    let page: ScanPage<Order, String> =
        ScanPage { items: vec![], next_token: Some("T1".to_string()) };
    let state = state.absorb(Ok(page)).unwrap_or_else(|e| panic!("{}", e.message()));
    assert!(state.needs_request());
    assert_eq!(state.token().as_deref(), Some("T1"));
}

#[test]
fn scan_remote_failure_is_wrapped() {
    let state: ScanState<Order, String> = ScanState::new();
    let failed = state.absorb(Err(ScanFailure::RemoteCall("connection reset".to_string())));
    match failed {
        Ok(_) => panic!("a failed round trip must fail the scan"),
        Err(e) => assert_eq!(
            e.message(),
            "Unable to get items error during scan operation: connection reset"
        ),
    }
}

#[test]
fn scan_deserialization_failure_discards_prior_pages() {
    // One good page, then a page that does not deserialize: the whole scan
    // fails, and the accumulated records are gone with the consumed state.
    let state: ScanState<Order, String> = ScanState::new();
    let page: ScanPage<Order, String> =
        ScanPage { items: vec![Order { id: 7 }], next_token: Some("T1".to_string()) };
    let state = state.absorb(Ok(page)).unwrap_or_else(|e| panic!("{}", e.message()));
    let failed = state.absorb(Err(ScanFailure::Deserialization("missing field id".to_string())));
    match failed {
        Ok(_) => panic!("a failed round trip must fail the scan"),
        Err(e) => assert_eq!(
            e.message(),
            "Unable to parse items, error during serialization operation: missing field id"
        ),
    }
}
