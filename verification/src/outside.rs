//! The trusted boundary: every call into an outside crate that the core's
//! logic needs is made here, behind a contract that Verus believes.
//!
//! Results that would take pages to state (a parsed date, a decomposed
//! URL, an encoded component) are given uninterpreted names; each is a
//! function of the call's arguments alone.

use vstd::prelude::*;

verus! {

/// The base (scheme, authority and path, without the query) and the
/// decoded query pairs of a well-formed URL text, or nothing if the text
/// is not a URL.
pub uninterp spec fn url_split_of(s: Seq<char>) -> Option<(Seq<char>, Seq<(Seq<char>, Seq<char>)>)>;

/// Relies on url's `Url::parse`, `Url::query_pairs` and `Url::set_query`:
/// parses `s`, takes the decoded query pairs out, and returns the rest of
/// the URL text beside them. The outcome depends on `s` alone.
#[verifier::external_body]
pub fn split_url(s: &str) -> (r: Option<(String, Vec<(String, String)>)>)
    ensures
        r matches Some(p) ==> url_split_of(s@) == Some(
            (p.0@, p.1@.map_values(|e: (String, String)| (e.0@, e.1@))),
        ),
        r is None ==> url_split_of(s@) is None,
        s@.len() == 0 ==> r is None,
{
    match url::Url::parse(s) {
        Ok(mut u) => {
            let pairs: Vec<(String, String)> = u.query_pairs().into_owned().collect();
            u.set_query(None);
            Some((String::from(u), pairs))
        },
        Err(_) => None,
    }
}

/// The `application/x-www-form-urlencoded` byte-serialization of `b`.
pub uninterp spec fn form_encoded_of(b: Seq<u8>) -> Seq<char>;

/// Relies on `form_urlencoded::byte_serialize` (re-exported by url): the
/// encoding depends on the bytes alone, and encodes nothing to nothing.
#[verifier::external_body]
pub fn encode_component(s: &str) -> (r: String)
    ensures
        r@ == form_encoded_of(vstd::utf8::encode_utf8(s@)),
        s@.len() == 0 ==> r@.len() == 0,
{
    url::form_urlencoded::byte_serialize(s.as_bytes()).collect()
}

/// The instant, in seconds since the epoch, that an RFC 2822 date text
/// denotes, or nothing if the text is not such a date.
pub uninterp spec fn http_date_of(s: Seq<char>) -> Option<i64>;

/// Relies on chrono's `DateTime::parse_from_rfc2822` and `timestamp`: the
/// parse depends on the characters alone, and an empty text is no date.
#[verifier::external_body]
pub fn parse_http_date(s: &str) -> (r: Option<i64>)
    ensures
        r == http_date_of(s@),
        s@.len() == 0 ==> r is None,
{
    match chrono::DateTime::parse_from_rfc2822(s) {
        Ok(dt) => Some(dt.timestamp()),
        Err(_) => None,
    }
}

/// Whether a byte sequence is one well-formed JSON document.
pub uninterp spec fn json_well_formed(b: Seq<u8>) -> bool;

/// Relies on `serde_json::from_slice::<Value>`: whether the bytes parse
/// depends on the bytes alone, and an empty input does not parse.
#[verifier::external_body]
pub fn json_parses(b: &[u8]) -> (r: bool)
    ensures
        r == json_well_formed(b@),
        b@.len() == 0 ==> !r,
{
    serde_json::from_slice::<serde_json::Value>(b).is_ok()
}

} // verus!
