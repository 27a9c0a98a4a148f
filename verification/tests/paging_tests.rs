use request_core::errors::{Error, ErrorKind};
use request_core::paging::{drain_scripted, FetchPlan, Page, PageCursor};

fn page(body: &[u8], continuation: Option<&str>) -> Page {
    Page {
        body: body.to_vec(),
        continuation: continuation.map(String::from),
    }
}

#[test]
fn three_pages_then_termination_and_no_further_fetch() {
    // Pages one and two carry a continuation token, page three does not:
    // exactly three pages come out, then the cursor stops for good.
    let script = vec![
        Ok(page(b"p1", Some("t1"))),
        Ok(page(b"p2", Some("t2"))),
        Ok(page(b"p3", None)),
        Ok(page(b"never fetched", Some("t4"))),
    ];
    let report = drain_scripted(script);
    assert_eq!(report.fetches, 3);
    assert_eq!(report.yielded.len(), 3);
    assert_eq!(report.yielded[0].as_ref().unwrap().body, b"p1");
    assert_eq!(report.yielded[2].as_ref().unwrap().body, b"p3");
    assert!(matches!(report.cursor.plan(), FetchPlan::Stop));
    // Asking again after termination still plans no fetch.
    assert!(matches!(report.cursor.plan(), FetchPlan::Stop));
}

#[test]
fn second_page_failure_yields_one_error_and_halts() {
    let script = vec![
        Ok(page(b"p1", Some("t1"))),
        Err(Error::Transport {
            message: String::from("reset"),
        }),
        Ok(page(b"never fetched", None)),
    ];
    let report = drain_scripted(script);
    assert_eq!(report.fetches, 2);
    assert_eq!(report.yielded.len(), 2);
    assert!(report.yielded[0].is_ok());
    assert_eq!(
        report.yielded[1].as_ref().unwrap_err().kind(),
        ErrorKind::Transport
    );
    assert!(matches!(report.cursor.plan(), FetchPlan::Stop));
}

#[test]
fn cursor_echoes_the_continuation_token() {
    let mut cursor = PageCursor::new();
    match cursor.plan() {
        FetchPlan::Fetch(t) => assert!(t.is_none()),
        FetchPlan::Stop => panic!("a fresh cursor fetches"),
    }
    let yielded = cursor.record(Ok(page(b"p1", Some("marker-1"))));
    assert_eq!(yielded.unwrap().body, b"p1");
    match cursor.plan() {
        FetchPlan::Fetch(Some(t)) => assert_eq!(t, "marker-1"),
        _ => panic!("the held token is echoed back"),
    }
    cursor.record(Ok(page(b"p2", None)));
    assert!(matches!(cursor.plan(), FetchPlan::Stop));
}

#[test]
fn failure_on_the_first_fetch() {
    let script = vec![Err(Error::Cancelled), Ok(page(b"x", None))];
    let report = drain_scripted(script);
    assert_eq!(report.fetches, 1);
    assert_eq!(report.yielded.len(), 1);
    assert_eq!(report.yielded[0].as_ref().unwrap_err().kind(), ErrorKind::Cancelled);
    assert!(matches!(report.cursor.plan(), FetchPlan::Stop));
}

#[test]
fn empty_script_fetches_nothing() {
    let report = drain_scripted(Vec::new());
    assert_eq!(report.fetches, 0);
    assert!(report.yielded.is_empty());
    // The cursor never advanced, so it would still fetch.
    assert!(matches!(report.cursor.plan(), FetchPlan::Fetch(None)));
}
