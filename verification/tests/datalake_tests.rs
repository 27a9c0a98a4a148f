use request_core::datalake::{ListFileSystemsBuilder, ListFileSystemsResponse};
use request_core::errors::ErrorKind;
use request_core::headers::HeaderMap;
use request_core::message::{Method, Response};
use request_core::paging::{drain_scripted, FetchPlan};

#[test]
fn the_listing_request_carries_every_filter() {
    let req = ListFileSystemsBuilder::new("https://acct.dfs.example.com")
        .prefix("logs-")
        .max_results(5)
        .next_marker("m1")
        .timeout(30)
        .client_request_id("cid-1")
        .execute()
        .unwrap();
    assert_eq!(req.method, Method::Get);
    assert!(req.idempotent);
    assert!(req.body.is_empty());
    assert_eq!(
        req.url.render(),
        "https://acct.dfs.example.com/?resource=account&prefix=logs-&maxResults=5&continuation=m1&timeout=30"
    );
    assert_eq!(
        req.headers.get("x-ms-client-request-id").map(|v| v.as_str()),
        Some("cid-1")
    );
}

#[test]
fn an_unfiltered_listing_sends_only_the_resource_selector() {
    let req = ListFileSystemsBuilder::new("https://acct.dfs.example.com")
        .execute()
        .unwrap();
    assert_eq!(
        req.url.render(),
        "https://acct.dfs.example.com/?resource=account"
    );
    assert!(req.headers.get("x-ms-client-request-id").is_none());
}

#[test]
fn a_page_is_decoded_with_its_continuation_marker() {
    let mut h = HeaderMap::new();
    h.insert("x-ms-continuation", "marker-2");
    let resp = Response {
        status: 200,
        headers: h,
        body: b"{\"filesystems\":[]}".to_vec(),
    };
    let page = ListFileSystemsResponse::from_response(&resp).unwrap();
    assert_eq!(page.body, b"{\"filesystems\":[]}");
    assert_eq!(page.next_marker.as_deref(), Some("marker-2"));

    let last = Response {
        status: 200,
        headers: HeaderMap::new(),
        body: b"{}".to_vec(),
    };
    let page = ListFileSystemsResponse::from_response(&last).unwrap();
    assert!(page.next_marker.is_none());
}

#[test]
fn a_failed_page_fetch_is_classified() {
    let resp = Response {
        status: 503,
        headers: HeaderMap::new(),
        body: b"busy".to_vec(),
    };
    assert_eq!(
        ListFileSystemsResponse::from_response(&resp)
            .unwrap_err()
            .kind(),
        ErrorKind::UnexpectedStatus
    );
    let garbled = Response {
        status: 200,
        headers: HeaderMap::new(),
        body: b"<xml/>".to_vec(),
    };
    assert_eq!(
        ListFileSystemsResponse::from_response(&garbled)
            .unwrap_err()
            .kind(),
        ErrorKind::Decode
    );
}

#[test]
fn the_listing_streams_through_the_cursor() {
    // Three decoded pages, the last without a marker, drive the cursor to
    // exhaustion.
    let page = |marker: Option<&str>| ListFileSystemsResponse {
        body: b"{}".to_vec(),
        next_marker: marker.map(String::from),
    };
    let cursor = ListFileSystemsBuilder::new("https://acct.dfs.example.com").stream();
    assert!(matches!(cursor.plan(), FetchPlan::Fetch(None)));
    let script = vec![
        Ok(page(Some("m1")).into_page()),
        Ok(page(Some("m2")).into_page()),
        Ok(page(None).into_page()),
    ];
    let report = drain_scripted(script);
    assert_eq!(report.fetches, 3);
    assert_eq!(report.yielded.len(), 3);
    assert!(matches!(report.cursor.plan(), FetchPlan::Stop));
}
