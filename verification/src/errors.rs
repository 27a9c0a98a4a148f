//! The error taxonomy of the request-execution core.
//!
//! Every failure a caller can see is tagged with one of a closed set of
//! kinds; the retry policy consults the kind (and for status failures the
//! status itself) to decide retry eligibility.

use vstd::prelude::*;

verus! {

/// A decoding failure in an otherwise delivered response. A missing
/// required header is distinct from a malformed one, and both are distinct
/// from a malformed body payload.
#[derive(Debug)]
pub enum DecodeFault {
    MissingHeader { name: String },
    MalformedHeader { name: String },
    /// The payload did not decode; the bytes are kept as a diagnostic
    /// snapshot.
    MalformedBody { body: Vec<u8> },
}

/// `f` is the missing-header fault naming `n`.
pub open spec fn spec_is_missing(f: DecodeFault, n: Seq<char>) -> bool {
    f matches DecodeFault::MissingHeader { name } && name@ == n
}

/// `f` is the malformed-header fault naming `n`.
pub open spec fn spec_is_malformed(f: DecodeFault, n: Seq<char>) -> bool {
    f matches DecodeFault::MalformedHeader { name } && name@ == n
}

/// A terminal failure of a request execution.
#[derive(Debug)]
pub enum Error {
    /// A connection or timeout failure below the status-code layer.
    Transport { message: String },
    /// The response status fell outside the caller's declared success set;
    /// the body is kept as a diagnostic snapshot.
    UnexpectedStatus { status: u16, body: Vec<u8> },
    /// The credential rejected a token request.
    Auth { message: String },
    /// The response was delivered but a required field was missing or
    /// malformed; never retried.
    Decode { fault: DecodeFault },
    /// Caller-initiated abandonment; propagated immediately.
    Cancelled,
    /// A request URL could not be assembled from its parts.
    InvalidUrl { url: String },
}

/// The bare tag of an `Error`, for comparisons.
#[derive(Clone, Copy, Debug, PartialEq, Eq, Structural)]
pub enum ErrorKind {
    Transport,
    UnexpectedStatus,
    Auth,
    Decode,
    Cancelled,
    InvalidUrl,
}

pub open spec fn spec_kind_of(e: Error) -> ErrorKind {
    match e {
        Error::Transport { .. } => ErrorKind::Transport,
        Error::UnexpectedStatus { .. } => ErrorKind::UnexpectedStatus,
        Error::Auth { .. } => ErrorKind::Auth,
        Error::Decode { .. } => ErrorKind::Decode,
        Error::Cancelled => ErrorKind::Cancelled,
        Error::InvalidUrl { .. } => ErrorKind::InvalidUrl,
    }
}

/// Response statuses on the retry allow-list: request timeout,
/// too-many-requests, and the server-side gateway family. No client-error
/// status is on it.
pub open spec fn spec_status_is_transient(status: u16) -> bool {
    status == 408 || status == 429 || status == 500 || status == 502 || status == 503
        || status == 504
}

/// Whether an error class is safe to resubmit: transport failures always
/// are (subject to idempotency and budget), status failures only on the
/// allow-list, and auth, decode and cancellation failures never.
pub open spec fn spec_is_transient(e: Error) -> bool {
    match e {
        Error::Transport { .. } => true,
        Error::UnexpectedStatus { status, .. } => spec_status_is_transient(status),
        _ => false,
    }
}

impl Error {
    pub fn kind(&self) -> (k: ErrorKind)
        ensures
            k == spec_kind_of(*self),
    {
        match self {
            Error::Transport { .. } => ErrorKind::Transport,
            Error::UnexpectedStatus { .. } => ErrorKind::UnexpectedStatus,
            Error::Auth { .. } => ErrorKind::Auth,
            Error::Decode { .. } => ErrorKind::Decode,
            Error::Cancelled => ErrorKind::Cancelled,
            Error::InvalidUrl { .. } => ErrorKind::InvalidUrl,
        }
    }

    pub fn is_transient(&self) -> (r: bool)
        ensures
            r == spec_is_transient(*self),
    {
        match self {
            Error::Transport { .. } => true,
            Error::UnexpectedStatus { status, .. } => status_is_transient(*status),
            _ => false,
        }
    }
}

pub fn status_is_transient(status: u16) -> (r: bool)
    ensures
        r == spec_status_is_transient(status),
{
    status == 408 || status == 429 || status == 500 || status == 502 || status == 503
        || status == 504
}

} // verus!
