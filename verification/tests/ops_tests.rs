use request_core::config::{config, get_default_feature};
use request_core::errors::ErrorKind;
use request_core::headers::HeaderMap;
use request_core::message::{Method, Response};
use request_core::operations;

#[test]
fn the_configuration_defaults_are_filled_in() {
    let cfg = config().build();
    assert_eq!(cfg.api_version(), "2015-12-01");
    assert_eq!(cfg.base_path(), "https://management.azure.com");
    assert_eq!(
        cfg.token_credential_resource(),
        "https://management.azure.com/"
    );
    assert_eq!(get_default_feature(), "2015-12-01");
}

#[test]
fn overridden_configuration_values_are_kept() {
    let cfg = config()
        .api_version(String::from("2020-01-01"))
        .base_path(String::from("https://example.com"))
        .token_credential_resource(String::from("https://example.com/"))
        .build();
    assert_eq!(cfg.api_version(), "2020-01-01");
    assert_eq!(cfg.base_path(), "https://example.com");
    assert_eq!(cfg.token_credential_resource(), "https://example.com/");
}

#[test]
fn list_all_builds_the_exact_request() {
    let cfg = config().build();
    let req = operations::list_all(&cfg, "sub1", Some("tok")).unwrap();
    assert_eq!(req.method, Method::Get);
    assert!(req.idempotent);
    assert!(req.body.is_empty());
    assert_eq!(
        req.url.render(),
        "https://management.azure.com/subscriptions/sub1/providers/Microsoft.Features/features?api-version=2015-12-01"
    );
    assert_eq!(
        req.headers.get("authorization").map(|v| v.as_str()),
        Some("Bearer tok")
    );
    assert!(req.headers.get("content-length").is_none());
}

#[test]
fn list_operations_without_a_credential_sends_no_auth_header() {
    let cfg = config().build();
    let req = operations::list_operations(&cfg, None).unwrap();
    assert_eq!(
        req.url.render(),
        "https://management.azure.com/providers/Microsoft.Features/operations?api-version=2015-12-01"
    );
    assert!(req.headers.get("authorization").is_none());
}

#[test]
fn feature_paths_embed_every_parameter() {
    let cfg = config().build();
    let req = operations::list(&cfg, "Microsoft.Compute", "sub1", None).unwrap();
    assert_eq!(
        req.url.render(),
        "https://management.azure.com/subscriptions/sub1/providers/Microsoft.Features/providers/Microsoft.Compute/features?api-version=2015-12-01"
    );
    let req = operations::get(&cfg, "Microsoft.Compute", "fast-disks", "sub1", None).unwrap();
    assert_eq!(
        req.url.render(),
        "https://management.azure.com/subscriptions/sub1/providers/Microsoft.Features/providers/Microsoft.Compute/features/fast-disks?api-version=2015-12-01"
    );
}

#[test]
fn registration_is_a_bodiless_post_with_zero_content_length() {
    let cfg = config().build();
    let req = operations::register(&cfg, "Microsoft.Compute", "fast-disks", "sub1", Some("t"))
        .unwrap();
    assert_eq!(req.method, Method::Post);
    assert!(!req.idempotent);
    assert!(req.body.is_empty());
    assert_eq!(
        req.headers.get("content-length").map(|v| v.as_str()),
        Some("0")
    );
    assert!(req
        .url
        .render()
        .ends_with("/features/fast-disks/register?api-version=2015-12-01"));
    let req = operations::unregister(&cfg, "Microsoft.Compute", "fast-disks", "sub1", None)
        .unwrap();
    assert!(req
        .url
        .render()
        .ends_with("/features/fast-disks/unregister?api-version=2015-12-01"));
}

#[test]
fn an_invalid_base_path_is_rejected() {
    let cfg = config().base_path(String::from("no scheme at all")).build();
    let err = operations::list_operations(&cfg, None).unwrap_err();
    assert_eq!(err.kind(), ErrorKind::InvalidUrl);
}

#[test]
fn operation_responses_are_classified() {
    let ok = Response {
        status: 200,
        headers: HeaderMap::new(),
        body: b"{\"value\":[]}".to_vec(),
    };
    assert_eq!(
        operations::decode_operation_response(&ok).unwrap(),
        b"{\"value\":[]}"
    );
    let bad_payload = Response {
        status: 200,
        headers: HeaderMap::new(),
        body: b"<html>".to_vec(),
    };
    assert_eq!(
        operations::decode_operation_response(&bad_payload)
            .unwrap_err()
            .kind(),
        ErrorKind::Decode
    );
    let rejected = Response {
        status: 409,
        headers: HeaderMap::new(),
        body: b"conflict".to_vec(),
    };
    assert_eq!(
        operations::decode_operation_response(&rejected)
            .unwrap_err()
            .kind(),
        ErrorKind::UnexpectedStatus
    );
}
