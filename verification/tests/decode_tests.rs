use request_core::decode::{
    check_status, decode_json_body, required_date_header, required_header,
};
use request_core::errors::{DecodeFault, Error, ErrorKind};
use request_core::headers::HeaderMap;
use request_core::message::Response;

fn response(status: u16, headers: HeaderMap, body: &[u8]) -> Response {
    Response {
        status,
        headers,
        body: body.to_vec(),
    }
}

#[test]
fn missing_header_and_wrong_status_are_distinct_errors() {
    // A delivered 200 with a missing required header is a decoding fault;
    // a 404 is a status failure. The two are distinguishable.
    let ok_but_bare = response(200, HeaderMap::new(), b"{}");
    let missing = required_header(&ok_but_bare, "x-ms-request-id").unwrap_err();
    assert_eq!(missing.kind(), ErrorKind::Decode);
    match missing {
        Error::Decode {
            fault: DecodeFault::MissingHeader { name },
        } => assert_eq!(name, "x-ms-request-id"),
        _ => panic!("expected the missing-header fault"),
    }

    let not_found = response(404, HeaderMap::new(), b"gone");
    let status_err = check_status(&not_found, &vec![200]).unwrap_err();
    assert_eq!(status_err.kind(), ErrorKind::UnexpectedStatus);
    match status_err {
        Error::UnexpectedStatus { status, body } => {
            assert_eq!(status, 404);
            assert_eq!(body, b"gone");
        }
        _ => panic!("expected the status failure"),
    }
}

#[test]
fn expected_status_is_accepted() {
    let ok = response(202, HeaderMap::new(), b"");
    assert!(check_status(&ok, &vec![200, 202]).is_ok());
    assert!(check_status(&ok, &vec![200]).is_err());
}

#[test]
fn present_header_is_returned() {
    let mut headers = HeaderMap::new();
    headers.insert("ETag", "\"abc\"");
    let resp = response(200, headers, b"");
    assert_eq!(required_header(&resp, "etag").unwrap(), "\"abc\"");
}

#[test]
fn date_header_parses_against_the_wire_format() {
    let mut headers = HeaderMap::new();
    headers.insert("Last-Modified", "Tue, 15 Nov 1994 08:12:31 GMT");
    let resp = response(200, headers, b"");
    assert_eq!(
        required_date_header(&resp, "last-modified").unwrap(),
        784887151
    );
}

#[test]
fn malformed_date_is_distinct_from_a_missing_one() {
    let mut headers = HeaderMap::new();
    headers.insert("Date", "half past nine");
    let resp = response(200, headers, b"");
    match required_date_header(&resp, "date").unwrap_err() {
        Error::Decode {
            fault: DecodeFault::MalformedHeader { name },
        } => assert_eq!(name, "date"),
        _ => panic!("expected the malformed-header fault"),
    }
    let bare = response(200, HeaderMap::new(), b"");
    match required_date_header(&bare, "date").unwrap_err() {
        Error::Decode {
            fault: DecodeFault::MissingHeader { name },
        } => assert_eq!(name, "date"),
        _ => panic!("expected the missing-header fault"),
    }
}

#[test]
fn json_body_is_validated_and_handed_back() {
    let good = response(200, HeaderMap::new(), b"{\"value\":[1,2,3]}");
    assert_eq!(
        decode_json_body(&good, &vec![200]).unwrap(),
        b"{\"value\":[1,2,3]}"
    );

    let malformed = response(200, HeaderMap::new(), b"{\"value\":");
    match decode_json_body(&malformed, &vec![200]).unwrap_err() {
        Error::Decode {
            fault: DecodeFault::MalformedBody { body },
        } => assert_eq!(body, b"{\"value\":"),
        _ => panic!("expected the malformed-body fault"),
    }

    let rejected = response(500, HeaderMap::new(), b"{}");
    assert_eq!(
        decode_json_body(&rejected, &vec![200]).unwrap_err().kind(),
        ErrorKind::UnexpectedStatus
    );
}
