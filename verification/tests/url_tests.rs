use request_core::errors::{Error, ErrorKind};
use request_core::requrl::RequestUrl;

#[test]
fn a_url_is_split_into_base_and_pairs() {
    let u = RequestUrl::parse("https://example.com/a/b?x=1&y=two").unwrap();
    assert_eq!(u.base, "https://example.com/a/b");
    assert_eq!(u.pairs.len(), 2);
    assert_eq!(u.pairs[0], (String::from("x"), String::from("1")));
    assert_eq!(u.pairs[1], (String::from("y"), String::from("two")));
}

#[test]
fn an_invalid_url_is_rejected() {
    match RequestUrl::parse("not a url").unwrap_err() {
        Error::InvalidUrl { url } => assert_eq!(url, "not a url"),
        other => panic!("expected the invalid-url error, got {:?}", other.kind()),
    }
    assert_eq!(
        RequestUrl::parse("").unwrap_err().kind(),
        ErrorKind::InvalidUrl
    );
}

#[test]
fn rendering_encodes_each_component() {
    let mut u = RequestUrl::parse("https://example.com/search").unwrap();
    u.append_pair("q", "a b&c");
    u.append_pair("plain", "xyz");
    assert_eq!(
        u.render(),
        "https://example.com/search?q=a+b%26c&plain=xyz"
    );
}

#[test]
fn rendering_a_query_less_url_adds_no_separator() {
    let u = RequestUrl::parse("https://example.com/items").unwrap();
    assert_eq!(u.render(), "https://example.com/items");
}

#[test]
fn round_trip_of_decoded_pairs() {
    // Pairs decoded from a URL text render back to an equivalent text.
    let u = RequestUrl::parse("https://example.com/s?q=a+b%26c").unwrap();
    assert_eq!(u.pairs[0], (String::from("q"), String::from("a b&c")));
    assert_eq!(u.render(), "https://example.com/s?q=a+b%26c");
}

#[test]
fn the_version_selector_is_appended_only_when_absent() {
    let mut u = RequestUrl::parse("https://example.com/s").unwrap();
    u.append_pair_if_absent("api-version", "7");
    assert_eq!(u.pairs.len(), 1);
    u.append_pair_if_absent("api-version", "8");
    assert_eq!(u.pairs.len(), 1);
    assert_eq!(u.pairs[0], (String::from("api-version"), String::from("7")));

    let mut v = RequestUrl::parse("https://example.com/s?api-version=2").unwrap();
    v.append_pair_if_absent("api-version", "9");
    assert_eq!(v.pairs.len(), 1);
    assert_eq!(v.pairs[0], (String::from("api-version"), String::from("2")));
}

#[test]
fn has_param_matches_keys_exactly() {
    let u = RequestUrl::parse("https://example.com/s?Key=1").unwrap();
    assert!(u.has_param("Key"));
    assert!(!u.has_param("key"));
    assert!(!u.has_param("other"));
}
