//! Listing the file systems of a storage account: a filtered,
//! server-paginated listing. The builder renders the filter parameters
//! into the exact query pairs of the wire contract; the pages stream
//! through the pagination cursor, the continuation marker echoed back as
//! the continuation query parameter.

use vstd::prelude::*;

use crate::catalog::spec_opt_pair;
use crate::decode::decode_json_body;
use crate::errors::{DecodeFault, Error};
use crate::headers::lemma_lookup_empty;
use crate::message::{Method, Request, Response};
use crate::outside::{json_well_formed, url_split_of};
use crate::paging::{CursorPhase, Page, PageCursor};
use crate::requrl::RequestUrl;
use crate::strutil::{fmt_u64, spec_dec};

verus! {

/// The query pairs of a listing request: the account resource selector,
/// then each set filter in the wire order.
pub open spec fn spec_list_pairs(
    base: Seq<(Seq<char>, Seq<char>)>,
    prefix: Option<Seq<char>>,
    max_results: Option<u32>,
    marker: Option<Seq<char>>,
    timeout: Option<u32>,
) -> Seq<(Seq<char>, Seq<char>)> {
    let p = base.push(("resource"@, "account"@));
    let p = spec_opt_pair(p, "prefix"@, prefix);
    let p = match max_results {
        Some(n) => p.push(("maxResults"@, spec_dec(n as int))),
        None => p,
    };
    let p = spec_opt_pair(p, "continuation"@, marker);
    let p = match timeout {
        Some(n) => p.push(("timeout"@, spec_dec(n as int))),
        None => p,
    };
    p
}

/// Lists the file systems of the account at `client_url`.
#[derive(Debug)]
pub struct ListFileSystemsBuilder {
    pub client_url: String,
    pub prefix: Option<String>,
    pub next_marker: Option<String>,
    pub max_results: Option<u32>,
    pub client_request_id: Option<String>,
    pub timeout: Option<u32>,
}

impl ListFileSystemsBuilder {
    /// A new listing with every filter unset.
    pub fn new(client_url: &str) -> (r: ListFileSystemsBuilder)
        ensures
            r.client_url@ == client_url@,
            r.prefix is None,
            r.next_marker is None,
            r.max_results is None,
            r.client_request_id is None,
            r.timeout is None,
    {
        ListFileSystemsBuilder {
            client_url: String::from_str(client_url),
            prefix: None,
            next_marker: None,
            max_results: None,
            client_request_id: None,
            timeout: None,
        }
    }

    pub fn prefix(self, prefix: &str) -> (r: ListFileSystemsBuilder)
        ensures
            r.prefix matches Some(p) && p@ == prefix@,
            r.client_url == self.client_url,
            r.next_marker == self.next_marker,
            r.max_results == self.max_results,
            r.client_request_id == self.client_request_id,
            r.timeout == self.timeout,
    {
        ListFileSystemsBuilder { prefix: Some(String::from_str(prefix)), ..self }
    }

    /// The continuation marker the next fetch echoes back.
    pub fn next_marker(self, next_marker: &str) -> (r: ListFileSystemsBuilder)
        ensures
            r.next_marker matches Some(m) && m@ == next_marker@,
            r.client_url == self.client_url,
            r.prefix == self.prefix,
            r.max_results == self.max_results,
            r.client_request_id == self.client_request_id,
            r.timeout == self.timeout,
    {
        ListFileSystemsBuilder { next_marker: Some(String::from_str(next_marker)), ..self }
    }

    pub fn max_results(self, max_results: u32) -> (r: ListFileSystemsBuilder)
        ensures
            r.max_results == Some(max_results),
            r.client_url == self.client_url,
            r.prefix == self.prefix,
            r.next_marker == self.next_marker,
            r.client_request_id == self.client_request_id,
            r.timeout == self.timeout,
    {
        ListFileSystemsBuilder { max_results: Some(max_results), ..self }
    }

    pub fn client_request_id(self, client_request_id: &str) -> (r: ListFileSystemsBuilder)
        ensures
            r.client_request_id matches Some(c) && c@ == client_request_id@,
            r.client_url == self.client_url,
            r.prefix == self.prefix,
            r.next_marker == self.next_marker,
            r.max_results == self.max_results,
            r.timeout == self.timeout,
    {
        ListFileSystemsBuilder {
            client_request_id: Some(String::from_str(client_request_id)),
            ..self
        }
    }

    pub fn timeout(self, timeout: u32) -> (r: ListFileSystemsBuilder)
        ensures
            r.timeout == Some(timeout),
            r.client_url == self.client_url,
            r.prefix == self.prefix,
            r.next_marker == self.next_marker,
            r.max_results == self.max_results,
            r.client_request_id == self.client_request_id,
    {
        ListFileSystemsBuilder { timeout: Some(timeout), ..self }
    }

    /// Builds one page's fetch: a get against the account URL with the
    /// filters as query pairs and the client request identifier header
    /// when one is held.
    pub fn execute(&self) -> (r: Result<Request, Error>)
        ensures
            r is Ok <==> url_split_of(self.client_url@) is Some,
            r matches Err(e) ==> e matches Error::InvalidUrl { url } && url@ == self.client_url@,
            r matches Ok(req) ==> (url_split_of(self.client_url@) matches Some(sp) && {
                &&& req.url.base@ == sp.0
                &&& req.url.spec_pairs() == spec_list_pairs(
                    sp.1,
                    match self.prefix {
                        Some(p) => Some(p@),
                        None => None,
                    },
                    self.max_results,
                    match self.next_marker {
                        Some(m) => Some(m@),
                        None => None,
                    },
                    self.timeout,
                )
                &&& req.method == Method::Get
                &&& req.idempotent
                &&& req.body@ == Seq::<u8>::empty()
                &&& req.wf()
                &&& req.headers.spec_get("x-ms-client-request-id"@) == (match self
                    .client_request_id {
                    Some(c) => Some(c@),
                    None => None::<Seq<char>>,
                })
            }),
    {
        let mut url = match RequestUrl::parse(self.client_url.as_str()) {
            Ok(u) => u,
            Err(e) => {
                return Err(e);
            },
        };
        url.append_pair("resource", "account");
        match &self.prefix {
            Some(p) => url.append_pair("prefix", p.as_str()),
            None => (),
        }
        match &self.max_results {
            Some(n) => {
                let text = fmt_u64(*n as u64);
                url.append_pair("maxResults", text.as_str());
            },
            None => (),
        }
        match &self.next_marker {
            Some(m) => url.append_pair("continuation", m.as_str()),
            None => (),
        }
        match &self.timeout {
            Some(n) => {
                let text = fmt_u64(*n as u64);
                url.append_pair("timeout", text.as_str());
            },
            None => (),
        }
        let mut req = Request::new(Method::Get, url);
        proof {
            lemma_lookup_empty("x-ms-client-request-id"@);
        }
        match &self.client_request_id {
            Some(c) => req.headers.insert("x-ms-client-request-id", c.as_str()),
            None => (),
        }
        Ok(req)
    }

    /// The lazy page sequence of this listing, started at its beginning.
    /// Each advance re-supplies the builder's filters plus the cursor's
    /// continuation marker; the consumer drives the cursor against the
    /// fetched pages.
    pub fn stream(self) -> (r: PageCursor)
        ensures
            r.phase() == CursorPhase::Init,
    {
        PageCursor::new()
    }
}

/// One decoded listing page: the payload bytes and the continuation
/// marker, whose absence means the listing is exhausted.
#[derive(Debug)]
pub struct ListFileSystemsResponse {
    pub body: Vec<u8>,
    pub next_marker: Option<String>,
}

impl ListFileSystemsResponse {
    /// Decodes one page: a success status with a well-formed payload is
    /// owed a page; the continuation marker is taken from its header.
    pub fn from_response(resp: &Response) -> (r: Result<ListFileSystemsResponse, Error>)
        ensures
            r is Ok <==> resp.status == 200 && json_well_formed(resp.body@),
            r matches Ok(p) ==> {
                &&& p.body@ == resp.body@
                &&& (match resp.headers.spec_get("x-ms-continuation"@) {
                    Some(v) => p.next_marker matches Some(m) && m@ == v,
                    None => p.next_marker is None,
                })
            },
            r matches Err(e) ==> {
                if resp.status != 200 {
                    e matches Error::UnexpectedStatus { status, body } && status == resp.status
                        && body@ == resp.body@
                } else {
                    e matches Error::Decode { fault } && (fault
                        matches DecodeFault::MalformedBody { body } && body@ == resp.body@)
                }
            },
    {
        let expected: Vec<u16> = vec![200];
        proof {
            assert(expected@ =~= seq![200u16]);
            if resp.status == 200 {
                assert(expected@[0] == resp.status);
                assert(expected@.contains(resp.status));
            } else {
                assert(forall|i: int| 0 <= i < expected@.len() ==> expected@[i] != resp.status);
                assert(!expected@.contains(resp.status));
            }
        }
        let body = match decode_json_body(resp, &expected) {
            Ok(b) => b,
            Err(e) => {
                return Err(e);
            },
        };
        let next_marker = match resp.headers.get("x-ms-continuation") {
            Some(v) => Some(String::from_str(v.as_str())),
            None => None,
        };
        Ok(ListFileSystemsResponse { body, next_marker })
    }

    /// The page the cursor yields for this response.
    pub fn into_page(self) -> (p: Page)
        ensures
            p.body == self.body,
            match self.next_marker {
                Some(m) => p.continuation matches Some(c) && c@ == m@,
                None => p.continuation is None,
            },
    {
        let continuation = match &self.next_marker {
            Some(m) => Some(String::from_str(m.as_str())),
            None => None,
        };
        Page { body: self.body, continuation }
    }
}

} // verus!
