//! The response decoder: a delivered response against the caller's
//! expectations. A status outside the declared success set is a status
//! failure with a body snapshot; a missing required header, a malformed
//! header value and a malformed body are three distinct decoding faults,
//! and none of them is ever retried.

use vstd::prelude::*;

use crate::errors::{DecodeFault, Error};
use crate::message::Response;
use crate::outside::{http_date_of, json_parses, json_well_formed, parse_http_date};
use crate::strutil::copy_bytes;

verus! {

/// Whether the response status is in the caller's declared success set.
pub fn status_in(expected: &Vec<u16>, status: u16) -> (r: bool)
    ensures
        r == expected@.contains(status),
{
    let len = expected.len();
    let mut i: usize = 0;
    while i < len
        invariant
            len == expected@.len(),
            i <= len,
            forall|j: int| 0 <= j < i ==> expected@[j] != status,
        decreases len - i,
    {
        if expected[i] == status {
            return true;
        }
        i += 1;
    }
    proof {
        assert(!expected@.contains(status));
    }
    false
}

/// Accepts the response exactly when its status is in the declared
/// success set; otherwise a status failure carrying the actual status and
/// a snapshot of the body.
pub fn check_status(resp: &Response, expected: &Vec<u16>) -> (r: Result<(), Error>)
    ensures
        r is Ok <==> expected@.contains(resp.status),
        r matches Err(e) ==> e matches Error::UnexpectedStatus { status, body } && status
            == resp.status && body@ == resp.body@,
{
    if status_in(expected, resp.status) {
        Ok(())
    } else {
        Err(Error::UnexpectedStatus { status: resp.status, body: copy_bytes(&resp.body) })
    }
}

/// The value of a required header, or the missing-header fault — never a
/// status failure.
pub fn required_header(resp: &Response, name: &str) -> (r: Result<String, Error>)
    ensures
        r matches Ok(v) ==> resp.headers.spec_get(name@) == Some(v@),
        r is Ok <==> resp.headers.spec_get(name@) is Some,
        r matches Err(e) ==> e matches Error::Decode { fault } && (fault
            matches DecodeFault::MissingHeader { name: n } && n@ == name@),
{
    match resp.headers.get(name) {
        Some(v) => Ok(String::from_str(v.as_str())),
        None => Err(
            Error::Decode { fault: DecodeFault::MissingHeader { name: String::from_str(name) } },
        ),
    }
}

/// A required date header is readable: present, and a date under the one
/// fixed parsing rule.
pub open spec fn spec_date_ok(h: crate::headers::HeaderMap, n: Seq<char>) -> bool {
    h.spec_get(n) matches Some(v) && http_date_of(v) is Some
}

/// The fault a failed date read yields: the missing-header fault when the
/// header is absent, the malformed-header fault when it is no date.
pub open spec fn spec_date_fault(h: crate::headers::HeaderMap, n: Seq<char>, f: DecodeFault) -> bool {
    match h.spec_get(n) {
        None => crate::errors::spec_is_missing(f, n),
        Some(v) => http_date_of(v) is None && crate::errors::spec_is_malformed(f, n),
    }
}

/// A required timestamp header, parsed by the one fixed rule for dates.
/// A missing header and a value that is not a date are distinct faults.
pub fn required_date_header(resp: &Response, name: &str) -> (r: Result<i64, Error>)
    ensures
        r matches Ok(ts) ==> resp.headers.spec_get(name@) matches Some(v) && http_date_of(v)
            == Some(ts),
        r matches Err(e) ==> e matches Error::Decode { fault } && match resp.headers.spec_get(
            name@,
        ) {
            Some(v) => http_date_of(v) is None && (fault matches DecodeFault::MalformedHeader {
                name: n,
            } && n@ == name@),
            None => fault matches DecodeFault::MissingHeader { name: n } && n@ == name@,
        },
{
    match resp.headers.get(name) {
        Some(v) => {
            match parse_http_date(v.as_str()) {
                Some(ts) => Ok(ts),
                None => Err(
                    Error::Decode {
                        fault: DecodeFault::MalformedHeader { name: String::from_str(name) },
                    },
                ),
            }
        },
        None => Err(
            Error::Decode { fault: DecodeFault::MissingHeader { name: String::from_str(name) } },
        ),
    }
}

/// Classifies a response whose success payload is a structured document:
/// a status outside the success set is a status failure with the body
/// snapshot; a success status with a body that is not one well-formed
/// document is the malformed-body fault, also carrying the snapshot;
/// otherwise the payload bytes are handed back for typed decoding.
pub fn decode_json_body(resp: &Response, expected: &Vec<u16>) -> (r: Result<Vec<u8>, Error>)
    ensures
        r is Ok <==> expected@.contains(resp.status) && json_well_formed(resp.body@),
        r matches Ok(b) ==> b@ == resp.body@,
        r matches Err(e) ==> {
            if !expected@.contains(resp.status) {
                e matches Error::UnexpectedStatus { status, body } && status == resp.status
                    && body@ == resp.body@
            } else {
                e matches Error::Decode { fault } && (fault matches DecodeFault::MalformedBody {
                    body,
                } && body@ == resp.body@)
            }
        },
{
    if !status_in(expected, resp.status) {
        return Err(Error::UnexpectedStatus { status: resp.status, body: copy_bytes(&resp.body) });
    }
    if !json_parses(resp.body.as_slice()) {
        return Err(Error::Decode { fault: DecodeFault::MalformedBody { body: copy_bytes(&resp.body) } });
    }
    Ok(copy_bytes(&resp.body))
}

} // verus!
