//! The request and response model: a method, a URL, case-insensitive
//! headers, and an opaque body.

use vstd::prelude::*;

use crate::headers::HeaderMap;
use crate::requrl::RequestUrl;

verus! {

#[derive(Clone, Copy, Debug, PartialEq, Eq, Structural)]
pub enum Method {
    Get,
    Head,
    Post,
    Put,
    Delete,
    Patch,
}

pub open spec fn spec_method_idempotent(m: Method) -> bool {
    match m {
        Method::Get | Method::Head | Method::Put | Method::Delete => true,
        Method::Post | Method::Patch => false,
    }
}

impl Method {
    /// Whether the method is idempotent by definition, the default for a
    /// request's retry eligibility.
    pub fn is_idempotent(&self) -> (r: bool)
        ensures
            r == spec_method_idempotent(*self),
    {
        match self {
            Method::Get | Method::Head | Method::Put | Method::Delete => true,
            Method::Post | Method::Patch => false,
        }
    }

    /// The method's wire name.
    pub fn name(&self) -> (r: &'static str)
        ensures
            *self == Method::Get ==> r@ == "GET"@,
            *self == Method::Head ==> r@ == "HEAD"@,
            *self == Method::Post ==> r@ == "POST"@,
            *self == Method::Put ==> r@ == "PUT"@,
            *self == Method::Delete ==> r@ == "DELETE"@,
            *self == Method::Patch ==> r@ == "PATCH"@,
    {
        match self {
            Method::Get => "GET",
            Method::Head => "HEAD",
            Method::Post => "POST",
            Method::Put => "PUT",
            Method::Delete => "DELETE",
            Method::Patch => "PATCH",
        }
    }
}

/// A request under construction or about to be sent. Mutable until sent;
/// each retry attempt derives a fresh copy but must replay the same body
/// bytes.
#[derive(Debug)]
pub struct Request {
    pub method: Method,
    pub url: RequestUrl,
    pub headers: HeaderMap,
    pub body: Vec<u8>,
    /// Whether the caller declared the operation idempotent; only such
    /// requests may be resubmitted after a transient failure.
    pub idempotent: bool,
}

impl Request {
    pub open spec fn wf(&self) -> bool {
        self.headers.wf()
    }

    /// A new bodiless request; idempotency defaults to the method's.
    pub fn new(method: Method, url: RequestUrl) -> (r: Request)
        ensures
            r.method == method,
            r.url.base@ == url.base@,
            r.url.spec_pairs() == url.spec_pairs(),
            r.headers@ == Seq::<(Seq<char>, Seq<char>)>::empty(),
            r.body@ == Seq::<u8>::empty(),
            r.idempotent == spec_method_idempotent(method),
            r.wf(),
    {
        let idempotent = method.is_idempotent();
        let r = Request { method, url, headers: HeaderMap::new(), body: Vec::new(), idempotent };
        proof {
            assert(r.body@ =~= Seq::<u8>::empty());
        }
        r
    }

    /// Replaces the body, keeping everything else.
    pub fn set_body(&mut self, body: Vec<u8>)
        ensures
            final(self).body == body,
            final(self).method == old(self).method,
            final(self).url == old(self).url,
            final(self).headers == old(self).headers,
            final(self).idempotent == old(self).idempotent,
    {
        self.body = body;
    }

    /// Overrides the declared idempotency, for callers whose operation
    /// carries an explicit idempotency contract.
    pub fn set_idempotent(&mut self, idempotent: bool)
        ensures
            final(self).idempotent == idempotent,
            final(self).method == old(self).method,
            final(self).url == old(self).url,
            final(self).headers == old(self).headers,
            final(self).body == old(self).body,
    {
        self.idempotent = idempotent;
    }
}

/// A received response: immutable once constructed.
#[derive(Debug)]
pub struct Response {
    pub status: u16,
    pub headers: HeaderMap,
    pub body: Vec<u8>,
}

} // verus!
