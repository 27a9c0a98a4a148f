//! The feature-registration operations: each builds the exact request the
//! wire contract asks for — the resource path, the version selector, the
//! bearer header when a credential is present — and the response is
//! classified by one rule: a success status with a well-formed payload,
//! or a status failure with a body snapshot. The transport sits between
//! the two halves, outside this core.

use vstd::prelude::*;

use crate::config::OperationConfig;
use crate::decode::decode_json_body;
use crate::errors::{DecodeFault, Error};
use crate::headers::{lemma_lookup_empty, HeaderMap};
use crate::message::{spec_method_idempotent, Method, Request, Response};
use crate::outside::{json_well_formed, url_split_of};
use crate::requrl::RequestUrl;
use crate::strutil::spec_eq_ignore_case;

verus! {

/// The credential header an operation carries: the bearer token when one
/// was supplied, nothing otherwise.
pub open spec fn spec_bearer_header(bearer: Option<Seq<char>>) -> Option<Seq<char>> {
    match bearer {
        Some(t) => Some("Bearer "@ + t),
        None => None,
    }
}

/// The headers of a built operation request: the credential header, and a
/// zero content length on the body-less writes that declare one.
pub open spec fn spec_op_headers(
    h: HeaderMap,
    bearer: Option<Seq<char>>,
    content_length_zero: bool,
) -> bool {
    &&& h.spec_get("authorization"@) == spec_bearer_header(bearer)
    &&& h.spec_get("content-length"@) == if content_length_zero {
        Some("0"@)
    } else {
        None::<Seq<char>>
    }
}

/// A built operation request against the URL text `full`: the split URL
/// with the version selector appended, the given method, an empty body,
/// and the operation headers.
pub open spec fn spec_op_request(
    req: Request,
    full: Seq<char>,
    method: Method,
    api_version: Seq<char>,
    bearer: Option<Seq<char>>,
    content_length_zero: bool,
) -> bool {
    &&& url_split_of(full) matches Some(sp) && req.url.base@ == sp.0 && req.url.spec_pairs()
        == sp.1.push(("api-version"@, api_version))
    &&& req.method == method
    &&& req.body@ == Seq::<u8>::empty()
    &&& req.idempotent == spec_method_idempotent(method)
    &&& spec_op_headers(req.headers, bearer, content_length_zero)
    &&& req.wf()
}

fn assemble(
    url_str: &str,
    method: Method,
    api_version: &str,
    bearer: Option<&str>,
    content_length_zero: bool,
) -> (r: Result<Request, Error>)
    ensures
        r is Ok <==> url_split_of(url_str@) is Some,
        r matches Ok(req) ==> spec_op_request(req, url_str@, method, api_version@, match bearer {
            Some(t) => Some(t@),
            None => None,
        }, content_length_zero),
        r matches Err(e) ==> e matches Error::InvalidUrl { url } && url@ == url_str@,
{
    proof {
        reveal_strlit("authorization");
        reveal_strlit("content-length");
        assert(!spec_eq_ignore_case("content-length"@, "authorization"@));
    }
    let mut url = match RequestUrl::parse(url_str) {
        Ok(u) => u,
        Err(e) => {
            return Err(e);
        },
    };
    url.append_pair("api-version", api_version);
    let mut req = Request::new(method, url);
    proof {
        lemma_lookup_empty("authorization"@);
        lemma_lookup_empty("content-length"@);
    }
    match bearer {
        Some(t) => {
            let mut value = String::from_str("Bearer ");
            value.append(t);
            req.headers.insert("authorization", value.as_str());
        },
        None => {},
    }
    if content_length_zero {
        req.headers.insert("content-length", "0");
    }
    Ok(req)
}

/// Lists the operations of the feature provider.
pub fn list_operations(operation_config: &OperationConfig, bearer: Option<&str>) -> (r: Result<
    Request,
    Error,
>)
    ensures
        ({
            let full = operation_config.spec_base_path()
                + "/providers/Microsoft.Features/operations"@;
            &&& r is Ok <==> url_split_of(full) is Some
            &&& r matches Ok(req) ==> spec_op_request(
                req,
                full,
                Method::Get,
                operation_config.spec_api_version(),
                match bearer {
                    Some(t) => Some(t@),
                    None => None,
                },
                false,
            )
            &&& r matches Err(e) ==> e matches Error::InvalidUrl { url } && url@ == full
        }),
{
    let mut url_str = String::from_str(operation_config.base_path());
    url_str.append("/providers/Microsoft.Features/operations");
    assemble(url_str.as_str(), Method::Get, operation_config.api_version(), bearer, false)
}

/// Lists all preview features available to a subscription.
pub fn list_all(
    operation_config: &OperationConfig,
    subscription_id: &str,
    bearer: Option<&str>,
) -> (r: Result<Request, Error>)
    ensures
        ({
            let full = operation_config.spec_base_path() + "/subscriptions/"@ + subscription_id@
                + "/providers/Microsoft.Features/features"@;
            &&& r is Ok <==> url_split_of(full) is Some
            &&& r matches Ok(req) ==> spec_op_request(
                req,
                full,
                Method::Get,
                operation_config.spec_api_version(),
                match bearer {
                    Some(t) => Some(t@),
                    None => None,
                },
                false,
            )
            &&& r matches Err(e) ==> e matches Error::InvalidUrl { url } && url@ == full
        }),
{
    let mut url_str = String::from_str(operation_config.base_path());
    url_str.append("/subscriptions/");
    url_str.append(subscription_id);
    url_str.append("/providers/Microsoft.Features/features");
    assemble(url_str.as_str(), Method::Get, operation_config.api_version(), bearer, false)
}

/// Lists the preview features of one resource provider.
pub fn list(
    operation_config: &OperationConfig,
    resource_provider_namespace: &str,
    subscription_id: &str,
    bearer: Option<&str>,
) -> (r: Result<Request, Error>)
    ensures
        ({
            let full = operation_config.spec_base_path() + "/subscriptions/"@ + subscription_id@
                + "/providers/Microsoft.Features/providers/"@ + resource_provider_namespace@
                + "/features"@;
            &&& r is Ok <==> url_split_of(full) is Some
            &&& r matches Ok(req) ==> spec_op_request(
                req,
                full,
                Method::Get,
                operation_config.spec_api_version(),
                match bearer {
                    Some(t) => Some(t@),
                    None => None,
                },
                false,
            )
            &&& r matches Err(e) ==> e matches Error::InvalidUrl { url } && url@ == full
        }),
{
    let mut url_str = String::from_str(operation_config.base_path());
    url_str.append("/subscriptions/");
    url_str.append(subscription_id);
    url_str.append("/providers/Microsoft.Features/providers/");
    url_str.append(resource_provider_namespace);
    url_str.append("/features");
    assemble(url_str.as_str(), Method::Get, operation_config.api_version(), bearer, false)
}

/// Reads one preview feature.
pub fn get(
    operation_config: &OperationConfig,
    resource_provider_namespace: &str,
    feature_name: &str,
    subscription_id: &str,
    bearer: Option<&str>,
) -> (r: Result<Request, Error>)
    ensures
        ({
            let full = operation_config.spec_base_path() + "/subscriptions/"@ + subscription_id@
                + "/providers/Microsoft.Features/providers/"@ + resource_provider_namespace@
                + "/features/"@ + feature_name@;
            &&& r is Ok <==> url_split_of(full) is Some
            &&& r matches Ok(req) ==> spec_op_request(
                req,
                full,
                Method::Get,
                operation_config.spec_api_version(),
                match bearer {
                    Some(t) => Some(t@),
                    None => None,
                },
                false,
            )
            &&& r matches Err(e) ==> e matches Error::InvalidUrl { url } && url@ == full
        }),
{
    let mut url_str = String::from_str(operation_config.base_path());
    url_str.append("/subscriptions/");
    url_str.append(subscription_id);
    url_str.append("/providers/Microsoft.Features/providers/");
    url_str.append(resource_provider_namespace);
    url_str.append("/features/");
    url_str.append(feature_name);
    assemble(url_str.as_str(), Method::Get, operation_config.api_version(), bearer, false)
}

/// Registers a subscription for a preview feature: a body-less write with
/// an explicit zero content length.
pub fn register(
    operation_config: &OperationConfig,
    resource_provider_namespace: &str,
    feature_name: &str,
    subscription_id: &str,
    bearer: Option<&str>,
) -> (r: Result<Request, Error>)
    ensures
        ({
            let full = operation_config.spec_base_path() + "/subscriptions/"@ + subscription_id@
                + "/providers/Microsoft.Features/providers/"@ + resource_provider_namespace@
                + "/features/"@ + feature_name@ + "/register"@;
            &&& r is Ok <==> url_split_of(full) is Some
            &&& r matches Ok(req) ==> spec_op_request(
                req,
                full,
                Method::Post,
                operation_config.spec_api_version(),
                match bearer {
                    Some(t) => Some(t@),
                    None => None,
                },
                true,
            )
            &&& r matches Err(e) ==> e matches Error::InvalidUrl { url } && url@ == full
        }),
{
    let mut url_str = String::from_str(operation_config.base_path());
    url_str.append("/subscriptions/");
    url_str.append(subscription_id);
    url_str.append("/providers/Microsoft.Features/providers/");
    url_str.append(resource_provider_namespace);
    url_str.append("/features/");
    url_str.append(feature_name);
    url_str.append("/register");
    assemble(url_str.as_str(), Method::Post, operation_config.api_version(), bearer, true)
}

/// Unregisters a subscription from a preview feature.
pub fn unregister(
    operation_config: &OperationConfig,
    resource_provider_namespace: &str,
    feature_name: &str,
    subscription_id: &str,
    bearer: Option<&str>,
) -> (r: Result<Request, Error>)
    ensures
        ({
            let full = operation_config.spec_base_path() + "/subscriptions/"@ + subscription_id@
                + "/providers/Microsoft.Features/providers/"@ + resource_provider_namespace@
                + "/features/"@ + feature_name@ + "/unregister"@;
            &&& r is Ok <==> url_split_of(full) is Some
            &&& r matches Ok(req) ==> spec_op_request(
                req,
                full,
                Method::Post,
                operation_config.spec_api_version(),
                match bearer {
                    Some(t) => Some(t@),
                    None => None,
                },
                true,
            )
            &&& r matches Err(e) ==> e matches Error::InvalidUrl { url } && url@ == full
        }),
{
    let mut url_str = String::from_str(operation_config.base_path());
    url_str.append("/subscriptions/");
    url_str.append(subscription_id);
    url_str.append("/providers/Microsoft.Features/providers/");
    url_str.append(resource_provider_namespace);
    url_str.append("/features/");
    url_str.append(feature_name);
    url_str.append("/unregister");
    assemble(url_str.as_str(), Method::Post, operation_config.api_version(), bearer, true)
}

/// Classifies an operation's response: the payload bytes on a 200 with a
/// well-formed document, the malformed-body fault (with the body kept as
/// a snapshot) on a 200 without one, and a status failure with a body
/// snapshot otherwise.
pub fn decode_operation_response(resp: &Response) -> (r: Result<Vec<u8>, Error>)
    ensures
        r is Ok <==> resp.status == 200 && json_well_formed(resp.body@),
        r matches Ok(b) ==> b@ == resp.body@,
        r matches Err(e) ==> {
            if resp.status != 200 {
                e matches Error::UnexpectedStatus { status, body } && status == resp.status
                    && body@ == resp.body@
            } else {
                e matches Error::Decode { fault } && (fault matches DecodeFault::MalformedBody {
                    body,
                } && body@ == resp.body@)
            }
        },
{
    let expected: Vec<u16> = vec![200];
    proof {
        assert(expected@ =~= seq![200u16]);
        if resp.status == 200 {
            assert(expected@[0] == resp.status);
            assert(expected@.contains(resp.status));
        } else {
            assert(forall|i: int| 0 <= i < expected@.len() ==> expected@[i] != resp.status);
            assert(!expected@.contains(resp.status));
        }
    }
    decode_json_body(resp, &expected)
}

} // verus!
