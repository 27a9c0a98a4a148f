use request_core::blob::{
    CopyBlobBuilder, CopyBlobResponse, CopyStatus, IfMatchCondition, SequenceNumberCondition,
    SetTagsBuilder, SetTagsResponse,
};
use request_core::errors::{DecodeFault, Error, ErrorKind};
use request_core::headers::HeaderMap;
use request_core::message::{Method, Response};

fn blob_response(headers: HeaderMap) -> Response {
    Response {
        status: 202,
        headers,
        body: Vec::new(),
    }
}

#[test]
fn the_copy_request_carries_source_and_conditions() {
    let mut b = CopyBlobBuilder::new(
        "https://acct.example.com/container/blob",
        "https://other.example.com/src",
    );
    b.metadata.push((String::from("owner"), String::from("me")));
    b.sequence_number_condition = Some(SequenceNumberCondition::LessOrEqual(7));
    b.if_match_condition = Some(IfMatchCondition::Match(String::from("\"etag1\"")));
    b.lease_id = Some(String::from("lease-1"));
    let req = b.build_request().unwrap();
    assert_eq!(req.method, Method::Put);
    assert!(req.idempotent);
    assert!(req.body.is_empty());
    assert_eq!(req.url.render(), "https://acct.example.com/container/blob");
    let h = &req.headers;
    assert_eq!(
        h.get("x-ms-copy-source").map(|v| v.as_str()),
        Some("https://other.example.com/src")
    );
    assert_eq!(
        h.get("x-ms-if-sequence-number-le").map(|v| v.as_str()),
        Some("7")
    );
    assert_eq!(h.get("if-match").map(|v| v.as_str()), Some("\"etag1\""));
    assert_eq!(h.get("x-ms-lease-id").map(|v| v.as_str()), Some("lease-1"));
    assert_eq!(h.get("x-ms-meta-owner").map(|v| v.as_str()), Some("me"));
    // The rehydrate priority always defaults to standard.
    assert_eq!(
        h.get("x-ms-rehydrate-priority").map(|v| v.as_str()),
        Some("Standard")
    );
}

#[test]
fn unset_optional_fields_send_no_header() {
    // Only the copy source and the defaulted rehydrate priority appear;
    // every optional condition, tier and lease header is absent.
    let b = CopyBlobBuilder::new(
        "https://acct.example.com/container/blob",
        "https://other.example.com/src",
    );
    let req = b.build_request().unwrap();
    let h = &req.headers;
    assert!(h.get("x-ms-if-sequence-number-lt").is_none());
    assert!(h.get("x-ms-if-sequence-number-le").is_none());
    assert!(h.get("x-ms-if-sequence-number-eq").is_none());
    assert!(h.get("if-modified-since").is_none());
    assert!(h.get("if-unmodified-since").is_none());
    assert!(h.get("if-match").is_none());
    assert!(h.get("if-none-match").is_none());
    assert!(h.get("x-ms-access-tier").is_none());
    assert!(h.get("x-ms-lease-id").is_none());
    assert!(h.get("x-ms-source-if-modified-since").is_none());
    assert!(h.get("x-ms-source-if-unmodified-since").is_none());
    assert!(h.get("x-ms-source-if-match").is_none());
    assert!(h.get("x-ms-source-if-none-match").is_none());
    assert!(h.get("x-ms-source-lease-id").is_none());
    assert_eq!(h.len(), 2);
}

#[test]
fn a_chosen_condition_variant_leaves_its_siblings_absent() {
    let mut b = CopyBlobBuilder::new(
        "https://acct.example.com/container/blob",
        "https://other.example.com/src",
    );
    b.sequence_number_condition = Some(SequenceNumberCondition::Less(9));
    b.if_match_condition = Some(IfMatchCondition::NotMatch(String::from("\"e\"")));
    let req = b.build_request().unwrap();
    let h = &req.headers;
    assert_eq!(
        h.get("x-ms-if-sequence-number-lt").map(|v| v.as_str()),
        Some("9")
    );
    assert!(h.get("x-ms-if-sequence-number-le").is_none());
    assert!(h.get("x-ms-if-sequence-number-eq").is_none());
    assert_eq!(h.get("if-none-match").map(|v| v.as_str()), Some("\"e\""));
    assert!(h.get("if-match").is_none());
}

#[test]
fn an_invalid_blob_url_is_rejected() {
    let b = CopyBlobBuilder::new("::::", "https://src.example.com/x");
    assert_eq!(b.build_request().unwrap_err().kind(), ErrorKind::InvalidUrl);
}

#[test]
fn the_copy_response_is_decoded_from_its_headers() {
    let mut h = HeaderMap::new();
    h.insert("ETag", "\"0x8D4\"");
    h.insert("Last-Modified", "Tue, 15 Nov 1994 08:12:31 GMT");
    h.insert("x-ms-request-id", "req-9");
    h.insert("x-ms-version", "2021-08-06");
    h.insert("Server", "Blob/1.0");
    h.insert("Date", "Wed, 21 Oct 2015 07:28:00 GMT");
    h.insert("x-ms-copy-id", "copy-1");
    h.insert("x-ms-copy-status", "pending");
    let decoded = CopyBlobResponse::from_headers(&blob_response(h)).unwrap();
    assert_eq!(decoded.etag, "\"0x8D4\"");
    assert_eq!(decoded.last_modified, 784887151);
    assert_eq!(decoded.request_id, "req-9");
    assert_eq!(decoded.version, "2021-08-06");
    assert_eq!(decoded.server, "Blob/1.0");
    assert_eq!(decoded.date, 1445412480);
    assert_eq!(decoded.copy_id, "copy-1");
    assert_eq!(decoded.copy_status, CopyStatus::Pending);
}

#[test]
fn a_missing_copy_header_names_the_first_failing_field() {
    // Nothing is set: the first read, the entity tag, fails as missing.
    let err = CopyBlobResponse::from_headers(&blob_response(HeaderMap::new())).unwrap_err();
    match err {
        Error::Decode {
            fault: DecodeFault::MissingHeader { name },
        } => assert_eq!(name, "etag"),
        _ => panic!("expected the missing-header fault for the entity tag"),
    }

    let mut h = HeaderMap::new();
    h.insert("ETag", "\"0x8D4\"");
    let err = CopyBlobResponse::from_headers(&blob_response(h)).unwrap_err();
    match err {
        Error::Decode {
            fault: DecodeFault::MissingHeader { name },
        } => assert_eq!(name, "last-modified"),
        _ => panic!("expected the missing-header fault for the modification date"),
    }
}

#[test]
fn a_malformed_copy_date_names_its_header() {
    let mut h = HeaderMap::new();
    h.insert("ETag", "\"0x8D4\"");
    h.insert("Last-Modified", "not a date");
    let err = CopyBlobResponse::from_headers(&blob_response(h)).unwrap_err();
    match err {
        Error::Decode {
            fault: DecodeFault::MalformedHeader { name },
        } => assert_eq!(name, "last-modified"),
        _ => panic!("expected the malformed-header fault for the modification date"),
    }
}

#[test]
fn an_unknown_copy_status_is_a_decoding_fault() {
    let mut h = HeaderMap::new();
    h.insert("ETag", "e");
    h.insert("Last-Modified", "Tue, 15 Nov 1994 08:12:31 GMT");
    h.insert("x-ms-request-id", "r");
    h.insert("x-ms-version", "v");
    h.insert("Server", "s");
    h.insert("Date", "Tue, 15 Nov 1994 08:12:31 GMT");
    h.insert("x-ms-copy-id", "c");
    h.insert("x-ms-copy-status", "underway");
    let err = CopyBlobResponse::from_headers(&blob_response(h)).unwrap_err();
    match err {
        Error::Decode {
            fault: DecodeFault::MalformedHeader { name },
        } => assert_eq!(name, "x-ms-copy-status"),
        _ => panic!("expected the malformed-header fault for the copy status"),
    }
}

#[test]
fn the_tag_set_is_framed_and_escaped() {
    let mut b = SetTagsBuilder::new(
        "https://acct.example.com/container/blob",
        vec![(String::from("env"), String::from("prod & <dev>"))],
    );
    b.lease_id = Some(String::from("lease-2"));
    let req = b.build_request().unwrap();
    assert_eq!(req.method, Method::Put);
    assert_eq!(
        req.url.render(),
        "https://acct.example.com/container/blob?comp=tags"
    );
    assert_eq!(
        req.headers.get("x-ms-lease-id").map(|v| v.as_str()),
        Some("lease-2")
    );
    assert_eq!(
        String::from_utf8(req.body.clone()).unwrap(),
        "<Tags><TagSet><Tag><Key>env</Key><Value>prod &amp; &lt;dev&gt;</Value></Tag></TagSet></Tags>"
    );
}

#[test]
fn an_empty_tag_set_frames_an_empty_list() {
    let b = SetTagsBuilder::new("https://acct.example.com/c/b", Vec::new());
    let req = b.build_request().unwrap();
    assert_eq!(
        String::from_utf8(req.body.clone()).unwrap(),
        "<Tags><TagSet></TagSet></Tags>"
    );
    assert!(req.headers.get("x-ms-lease-id").is_none());
}

#[test]
fn the_set_tags_response_is_decoded_from_its_headers() {
    let mut h = HeaderMap::new();
    h.insert("x-ms-request-id", "req-1");
    h.insert("Date", "Wed, 21 Oct 2015 07:28:00 GMT");
    let decoded = SetTagsResponse::from_headers(&blob_response(h)).unwrap();
    assert_eq!(decoded.request_id, "req-1");
    assert_eq!(decoded.date, 1445412480);

    let bare = blob_response(HeaderMap::new());
    match SetTagsResponse::from_headers(&bare).unwrap_err() {
        Error::Decode {
            fault: DecodeFault::MissingHeader { name },
        } => assert_eq!(name, "x-ms-request-id"),
        _ => panic!("expected the missing-header fault for the request identifier"),
    }

    let mut h = HeaderMap::new();
    h.insert("x-ms-request-id", "req-1");
    h.insert("Date", "half past nine");
    match SetTagsResponse::from_headers(&blob_response(h)).unwrap_err() {
        Error::Decode {
            fault: DecodeFault::MalformedHeader { name },
        } => assert_eq!(name, "date"),
        _ => panic!("expected the malformed-header fault for the date"),
    }
}
