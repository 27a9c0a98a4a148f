//! The blob operations: copying a blob from a source URL and setting a
//! blob's tags. Each builds the exact headers, query and body the wire
//! contract asks for, and decodes the response's headers into a typed
//! result; the send in between happens through the pipeline.

use vstd::prelude::*;
use vstd::utf8::encode_utf8;

use crate::decode::{required_date_header, required_header, spec_date_fault, spec_date_ok};
use crate::errors::{spec_is_malformed, spec_is_missing, DecodeFault, Error};
use crate::headers::lemma_lookup_empty;
use crate::message::{Method, Request, Response};
use crate::outside::{http_date_of, url_split_of};
use crate::requrl::RequestUrl;
use crate::strutil::{fmt_u64, spec_dec, spec_eq_ignore_case, spec_lower_code, str_eq};

verus! {

/// A condition on the blob's sequence number.
#[derive(Debug)]
pub enum SequenceNumberCondition {
    Less(u64),
    LessOrEqual(u64),
    Equal(u64),
}

/// The header a sequence-number condition becomes.
pub open spec fn spec_seqnum_header(c: SequenceNumberCondition) -> (Seq<char>, Seq<char>) {
    match c {
        SequenceNumberCondition::Less(n) => ("x-ms-if-sequence-number-lt"@, spec_dec(n as int)),
        SequenceNumberCondition::LessOrEqual(n) => (
            "x-ms-if-sequence-number-le"@,
            spec_dec(n as int),
        ),
        SequenceNumberCondition::Equal(n) => ("x-ms-if-sequence-number-eq"@, spec_dec(n as int)),
    }
}

/// A condition on the blob's last modification, the date text already in
/// wire form.
#[derive(Debug)]
pub enum IfModifiedSinceCondition {
    Modified(String),
    Unmodified(String),
}

pub open spec fn spec_modified_header(c: IfModifiedSinceCondition) -> (Seq<char>, Seq<char>) {
    match c {
        IfModifiedSinceCondition::Modified(d) => ("if-modified-since"@, d@),
        IfModifiedSinceCondition::Unmodified(d) => ("if-unmodified-since"@, d@),
    }
}

/// A condition on the blob's entity tag.
#[derive(Debug)]
pub enum IfMatchCondition {
    Match(String),
    NotMatch(String),
}

pub open spec fn spec_match_header(c: IfMatchCondition) -> (Seq<char>, Seq<char>) {
    match c {
        IfMatchCondition::Match(e) => ("if-match"@, e@),
        IfMatchCondition::NotMatch(e) => ("if-none-match"@, e@),
    }
}

/// A condition on the source blob's last modification.
#[derive(Debug)]
pub enum IfSourceModifiedSinceCondition {
    Modified(String),
    Unmodified(String),
}

pub open spec fn spec_source_modified_header(c: IfSourceModifiedSinceCondition) -> (
    Seq<char>,
    Seq<char>,
) {
    match c {
        IfSourceModifiedSinceCondition::Modified(d) => ("x-ms-source-if-modified-since"@, d@),
        IfSourceModifiedSinceCondition::Unmodified(d) => ("x-ms-source-if-unmodified-since"@, d@),
    }
}

/// A condition on the source blob's entity tag.
#[derive(Debug)]
pub enum IfSourceMatchCondition {
    Match(String),
    NotMatch(String),
}

pub open spec fn spec_source_match_header(c: IfSourceMatchCondition) -> (Seq<char>, Seq<char>) {
    match c {
        IfSourceMatchCondition::Match(e) => ("x-ms-source-if-match"@, e@),
        IfSourceMatchCondition::NotMatch(e) => ("x-ms-source-if-none-match"@, e@),
    }
}

/// The rehydrate priority of an archived blob.
#[derive(Debug)]
pub enum RehydratePriority {
    High,
    Standard,
}

pub open spec fn spec_rehydrate_value(p: RehydratePriority) -> Seq<char> {
    match p {
        RehydratePriority::High => "High"@,
        RehydratePriority::Standard => "Standard"@,
    }
}

/// The value sent under a fixed-name optional header: the rendered value
/// when the field selects that name, nothing otherwise. One such view per
/// name makes the builder's header contract two-sided: a header is
/// present exactly when its field is set.
pub open spec fn spec_opt_string(o: Option<String>) -> Option<Seq<char>> {
    match o {
        Some(s) => Some(s@),
        None => None,
    }
}

pub open spec fn spec_seqnum_lt(c: Option<SequenceNumberCondition>) -> Option<Seq<char>> {
    match c {
        Some(SequenceNumberCondition::Less(n)) => Some(spec_dec(n as int)),
        _ => None,
    }
}

pub open spec fn spec_seqnum_le(c: Option<SequenceNumberCondition>) -> Option<Seq<char>> {
    match c {
        Some(SequenceNumberCondition::LessOrEqual(n)) => Some(spec_dec(n as int)),
        _ => None,
    }
}

pub open spec fn spec_seqnum_eq(c: Option<SequenceNumberCondition>) -> Option<Seq<char>> {
    match c {
        Some(SequenceNumberCondition::Equal(n)) => Some(spec_dec(n as int)),
        _ => None,
    }
}

pub open spec fn spec_if_modified(c: Option<IfModifiedSinceCondition>) -> Option<Seq<char>> {
    match c {
        Some(IfModifiedSinceCondition::Modified(d)) => Some(d@),
        _ => None,
    }
}

pub open spec fn spec_if_unmodified(c: Option<IfModifiedSinceCondition>) -> Option<Seq<char>> {
    match c {
        Some(IfModifiedSinceCondition::Unmodified(d)) => Some(d@),
        _ => None,
    }
}

pub open spec fn spec_if_match(c: Option<IfMatchCondition>) -> Option<Seq<char>> {
    match c {
        Some(IfMatchCondition::Match(e)) => Some(e@),
        _ => None,
    }
}

pub open spec fn spec_if_none_match(c: Option<IfMatchCondition>) -> Option<Seq<char>> {
    match c {
        Some(IfMatchCondition::NotMatch(e)) => Some(e@),
        _ => None,
    }
}

pub open spec fn spec_src_modified(c: Option<IfSourceModifiedSinceCondition>) -> Option<Seq<char>> {
    match c {
        Some(IfSourceModifiedSinceCondition::Modified(d)) => Some(d@),
        _ => None,
    }
}

pub open spec fn spec_src_unmodified(c: Option<IfSourceModifiedSinceCondition>) -> Option<
    Seq<char>,
> {
    match c {
        Some(IfSourceModifiedSinceCondition::Unmodified(d)) => Some(d@),
        _ => None,
    }
}

pub open spec fn spec_src_match(c: Option<IfSourceMatchCondition>) -> Option<Seq<char>> {
    match c {
        Some(IfSourceMatchCondition::Match(e)) => Some(e@),
        _ => None,
    }
}

pub open spec fn spec_src_none_match(c: Option<IfSourceMatchCondition>) -> Option<Seq<char>> {
    match c {
        Some(IfSourceMatchCondition::NotMatch(e)) => Some(e@),
        _ => None,
    }
}

/// The header name a metadata key is sent under.
pub open spec fn spec_meta_name(k: Seq<char>) -> Seq<char> {
    "x-ms-meta-"@ + k
}

/// Metadata pairs as the contracts see them.
pub open spec fn spec_md_view(md: Seq<(String, String)>) -> Seq<(Seq<char>, Seq<char>)> {
    md.map_values(|e: (String, String)| (e.0@, e.1@))
}

/// Entry `i` is the last of its (case-insensitive) name in `md`.
pub open spec fn spec_meta_unshadowed(md: Seq<(Seq<char>, Seq<char>)>, i: int) -> bool {
    forall|j: int|
        i < j < md.len() ==> !spec_eq_ignore_case(
            spec_meta_name((#[trigger] md[j]).0),
            spec_meta_name(md[i].0),
        )
}

/// No metadata header name can collide, even up to case, with a name that
/// differs from the metadata prefix at position `idx`.
proof fn lemma_meta_not_ci(k: Seq<char>, f: Seq<char>, idx: int)
    requires
        0 <= idx < 10,
        idx < f.len(),
        spec_lower_code(f[idx]) != spec_lower_code("x-ms-meta-"@[idx]),
        "x-ms-meta-"@.len() == 10,
    ensures
        !spec_eq_ignore_case(spec_meta_name(k), f),
        !spec_eq_ignore_case(f, spec_meta_name(k)),
{
    let m = spec_meta_name(k);
    assert(m[idx] == "x-ms-meta-"@[idx]);
    if spec_eq_ignore_case(m, f) {
        assert(spec_lower_code(m[idx]) == spec_lower_code(f[idx]));
    }
    if spec_eq_ignore_case(f, m) {
        assert(spec_lower_code(f[idx]) == spec_lower_code(m[idx]));
    }
}

/// Begins a copy of `source_url` to the blob at `blob_url`.
#[derive(Debug)]
pub struct CopyBlobBuilder {
    pub blob_url: String,
    pub source_url: String,
    pub metadata: Vec<(String, String)>,
    pub sequence_number_condition: Option<SequenceNumberCondition>,
    pub if_modified_since_condition: Option<IfModifiedSinceCondition>,
    pub if_match_condition: Option<IfMatchCondition>,
    pub access_tier: Option<String>,
    pub lease_id: Option<String>,
    pub if_source_since_condition: Option<IfSourceModifiedSinceCondition>,
    pub if_source_match_condition: Option<IfSourceMatchCondition>,
    pub source_lease_id: Option<String>,
    pub rehydrate_priority: Option<RehydratePriority>,
}

impl CopyBlobBuilder {
    /// A new copy with every optional condition unset.
    pub fn new(blob_url: &str, source_url: &str) -> (r: CopyBlobBuilder)
        ensures
            r.blob_url@ == blob_url@,
            r.source_url@ == source_url@,
            r.metadata@ =~= Seq::<(String, String)>::empty(),
            r.sequence_number_condition is None,
            r.if_modified_since_condition is None,
            r.if_match_condition is None,
            r.access_tier is None,
            r.lease_id is None,
            r.if_source_since_condition is None,
            r.if_source_match_condition is None,
            r.source_lease_id is None,
            r.rehydrate_priority is None,
    {
        CopyBlobBuilder {
            blob_url: String::from_str(blob_url),
            source_url: String::from_str(source_url),
            metadata: Vec::new(),
            sequence_number_condition: None,
            if_modified_since_condition: None,
            if_match_condition: None,
            access_tier: None,
            lease_id: None,
            if_source_since_condition: None,
            if_source_match_condition: None,
            source_lease_id: None,
            rehydrate_priority: None,
        }
    }

    /// Closes the builder into the copy request: a bodiless put against
    /// the blob URL, the copy source always, each optional condition,
    /// tier and lease header present exactly when its field is set, the
    /// rehydrate priority defaulting to standard, and one header per
    /// metadata pair under the metadata name prefix.
    #[verifier::loop_isolation(false)]
    #[verifier::rlimit(100)]
    #[verifier::spinoff_prover]
    pub fn build_request(&self) -> (r: Result<Request, Error>)
        ensures
            r is Ok <==> url_split_of(self.blob_url@) is Some,
            r matches Err(e) ==> e matches Error::InvalidUrl { url } && url@ == self.blob_url@,
            r matches Ok(req) ==> (url_split_of(self.blob_url@) matches Some(sp) && {
                let h = req.headers;
                &&& req.url.base@ == sp.0
                &&& req.url.spec_pairs() == sp.1
                &&& req.method == Method::Put
                &&& req.idempotent
                &&& req.body@ == Seq::<u8>::empty()
                &&& req.wf()
                &&& h.spec_get("x-ms-copy-source"@) == Some(self.source_url@)
                &&& h.spec_get("x-ms-if-sequence-number-lt"@) == spec_seqnum_lt(
                    self.sequence_number_condition,
                )
                &&& h.spec_get("x-ms-if-sequence-number-le"@) == spec_seqnum_le(
                    self.sequence_number_condition,
                )
                &&& h.spec_get("x-ms-if-sequence-number-eq"@) == spec_seqnum_eq(
                    self.sequence_number_condition,
                )
                &&& h.spec_get("if-modified-since"@) == spec_if_modified(
                    self.if_modified_since_condition,
                )
                &&& h.spec_get("if-unmodified-since"@) == spec_if_unmodified(
                    self.if_modified_since_condition,
                )
                &&& h.spec_get("if-match"@) == spec_if_match(self.if_match_condition)
                &&& h.spec_get("if-none-match"@) == spec_if_none_match(self.if_match_condition)
                &&& h.spec_get("x-ms-access-tier"@) == spec_opt_string(self.access_tier)
                &&& h.spec_get("x-ms-lease-id"@) == spec_opt_string(self.lease_id)
                &&& h.spec_get("x-ms-source-if-modified-since"@) == spec_src_modified(
                    self.if_source_since_condition,
                )
                &&& h.spec_get("x-ms-source-if-unmodified-since"@) == spec_src_unmodified(
                    self.if_source_since_condition,
                )
                &&& h.spec_get("x-ms-source-if-match"@) == spec_src_match(
                    self.if_source_match_condition,
                )
                &&& h.spec_get("x-ms-source-if-none-match"@) == spec_src_none_match(
                    self.if_source_match_condition,
                )
                &&& h.spec_get("x-ms-source-lease-id"@) == spec_opt_string(self.source_lease_id)
                &&& h.spec_get("x-ms-rehydrate-priority"@) == Some(
                    match self.rehydrate_priority {
                        Some(p) => spec_rehydrate_value(p),
                        None => spec_rehydrate_value(RehydratePriority::Standard),
                    },
                )
                &&& forall|i: int|
                    0 <= i < self.metadata@.len() && spec_meta_unshadowed(
                        spec_md_view(self.metadata@),
                        i,
                    ) ==> h.spec_get(spec_meta_name((#[trigger] spec_md_view(self.metadata@)[i]).0))
                        == Some(spec_md_view(self.metadata@)[i].1)
            }),
    {
        proof {
            reveal_strlit("x-ms-meta-");
            reveal_strlit("x-ms-copy-source");
            reveal_strlit("x-ms-if-sequence-number-lt");
            reveal_strlit("x-ms-if-sequence-number-le");
            reveal_strlit("x-ms-if-sequence-number-eq");
            reveal_strlit("if-modified-since");
            reveal_strlit("if-unmodified-since");
            reveal_strlit("if-match");
            reveal_strlit("if-none-match");
            reveal_strlit("x-ms-access-tier");
            reveal_strlit("x-ms-lease-id");
            reveal_strlit("x-ms-source-if-modified-since");
            reveal_strlit("x-ms-source-if-unmodified-since");
            reveal_strlit("x-ms-source-if-match");
            reveal_strlit("x-ms-source-if-none-match");
            reveal_strlit("x-ms-source-lease-id");
            reveal_strlit("x-ms-rehydrate-priority");
            assert(!spec_eq_ignore_case("x-ms-access-tier"@, "x-ms-copy-source"@)
                && !spec_eq_ignore_case("x-ms-copy-source"@, "x-ms-access-tier"@)) by {
                assert(spec_lower_code("x-ms-access-tier"@[5]) != spec_lower_code(
                    "x-ms-copy-source"@[5],
                ));
            }
            assert(!spec_eq_ignore_case("x-ms-lease-id"@, "if-none-match"@)
                && !spec_eq_ignore_case("if-none-match"@, "x-ms-lease-id"@)) by {
                assert(spec_lower_code("x-ms-lease-id"@[0]) != spec_lower_code("if-none-match"@[0]));
            }
            assert(!spec_eq_ignore_case("x-ms-source-lease-id"@, "x-ms-source-if-match"@)
                && !spec_eq_ignore_case("x-ms-source-if-match"@, "x-ms-source-lease-id"@)) by {
                assert(spec_lower_code("x-ms-source-lease-id"@[12]) != spec_lower_code(
                    "x-ms-source-if-match"@[12],
                ));
            }
        }
        let url = match RequestUrl::parse(self.blob_url.as_str()) {
            Ok(u) => u,
            Err(e) => {
                return Err(e);
            },
        };
        let mut req = Request::new(Method::Put, url);
        proof {
            lemma_lookup_empty("x-ms-copy-source"@);
            lemma_lookup_empty("x-ms-if-sequence-number-lt"@);
            lemma_lookup_empty("x-ms-if-sequence-number-le"@);
            lemma_lookup_empty("x-ms-if-sequence-number-eq"@);
            lemma_lookup_empty("if-modified-since"@);
            lemma_lookup_empty("if-unmodified-since"@);
            lemma_lookup_empty("if-match"@);
            lemma_lookup_empty("if-none-match"@);
            lemma_lookup_empty("x-ms-access-tier"@);
            lemma_lookup_empty("x-ms-lease-id"@);
            lemma_lookup_empty("x-ms-source-if-modified-since"@);
            lemma_lookup_empty("x-ms-source-if-unmodified-since"@);
            lemma_lookup_empty("x-ms-source-if-match"@);
            lemma_lookup_empty("x-ms-source-if-none-match"@);
            lemma_lookup_empty("x-ms-source-lease-id"@);
            lemma_lookup_empty("x-ms-rehydrate-priority"@);
        }
        req.headers.insert("x-ms-copy-source", self.source_url.as_str());
        add_seqnum_header(&mut req.headers, &self.sequence_number_condition);
        add_modified_header(&mut req.headers, &self.if_modified_since_condition);
        add_match_header(&mut req.headers, &self.if_match_condition);
        add_opt_header(&mut req.headers, "x-ms-access-tier", &self.access_tier);
        add_opt_header(&mut req.headers, "x-ms-lease-id", &self.lease_id);
        add_source_modified_header(&mut req.headers, &self.if_source_since_condition);
        add_source_match_header(&mut req.headers, &self.if_source_match_condition);
        add_opt_header(&mut req.headers, "x-ms-source-lease-id", &self.source_lease_id);
        match &self.rehydrate_priority {
            Some(p) => req.headers.insert("x-ms-rehydrate-priority", p.value()),
            None => req.headers.insert(
                "x-ms-rehydrate-priority",
                RehydratePriority::Standard.value(),
            ),
        }
        let ghost h0 = req.headers;
        let ghost req0 = req;
        let ghost md = spec_md_view(self.metadata@);
        let len = self.metadata.len();
        let mut i: usize = 0;
        while i < len
            invariant
                len == self.metadata@.len(),
                i <= len,
                md == spec_md_view(self.metadata@),
                req.headers.wf(),
                req.method == req0.method,
                req.url == req0.url,
                req.body == req0.body,
                req.idempotent == req0.idempotent,
                forall|q: Seq<char>|
                    (forall|j: int|
                        0 <= j < i ==> !spec_eq_ignore_case(q, spec_meta_name(md[j].0)))
                        ==> #[trigger] req.headers.spec_get(q) == h0.spec_get(q),
                forall|k: int|
                    0 <= k < i && (forall|j: int|
                        k < j < i ==> !spec_eq_ignore_case(
                            spec_meta_name((#[trigger] md[j]).0),
                            spec_meta_name(md[k].0),
                        )) ==> req.headers.spec_get(spec_meta_name((#[trigger] md[k]).0)) == Some(
                        md[k].1,
                    ),
            decreases len - i,
        {
            let entry = &self.metadata[i];
            let mut name = String::from_str("x-ms-meta-");
            name.append(entry.0.as_str());
            let ghost hpre = req.headers;
            req.headers.insert(name.as_str(), entry.1.as_str());
            proof {
                assert(name@ == spec_meta_name(md[i as int].0));
                assert forall|q: Seq<char>|
                    (forall|j: int|
                        0 <= j < i + 1 ==> !spec_eq_ignore_case(
                            q,
                            spec_meta_name(md[j].0),
                        )) implies #[trigger] req.headers.spec_get(q) == h0.spec_get(q) by {
                    assert(!spec_eq_ignore_case(q, spec_meta_name(md[i as int].0)));
                    assert(req.headers.spec_get(q) == hpre.spec_get(q));
                }
                assert forall|k: int|
                    0 <= k < i + 1 && (forall|j: int|
                        k < j < i + 1 ==> !spec_eq_ignore_case(
                            spec_meta_name((#[trigger] md[j]).0),
                            spec_meta_name(md[k].0),
                        )) implies req.headers.spec_get(spec_meta_name((#[trigger] md[k]).0))
                    == Some(md[k].1) by {
                    if k == i {
                        assert(spec_eq_ignore_case(
                            spec_meta_name(md[k].0),
                            spec_meta_name(md[i as int].0),
                        ));
                    } else {
                        assert(!spec_eq_ignore_case(
                            spec_meta_name(md[i as int].0),
                            spec_meta_name(md[k].0),
                        ));
                        assert(hpre.spec_get(spec_meta_name(md[k].0)) == Some(md[k].1));
                    }
                }
            }
            i += 1;
        }
        proof {
            lemma_copy_fixed_preserved(h0, req.headers, md, i as int);
        }
        Ok(req)
    }
}

/// Adds a set optional header by name: the named header takes the value,
/// every other name keeps its binding.
fn add_opt_header(h: &mut crate::headers::HeaderMap, name: &str, v: &Option<String>)
    requires
        old(h).wf(),
    ensures
        final(h).wf(),
        final(h).spec_get(name@) == (match *v {
            Some(s) => Some(s@),
            None => old(h).spec_get(name@),
        }),
        forall|q: Seq<char>|
            !spec_eq_ignore_case(q, name@) ==> #[trigger] final(h).spec_get(q) == old(h).spec_get(
                q,
            ),
{
    match v {
        Some(s) => h.insert(name, s.as_str()),
        None => (),
    }
}

/// Adds the sequence-number condition's header: the chosen comparison's
/// name takes the rendered number, the other two and every other name
/// keep their bindings.
fn add_seqnum_header(h: &mut crate::headers::HeaderMap, c: &Option<SequenceNumberCondition>)
    requires
        old(h).wf(),
    ensures
        final(h).wf(),
        final(h).spec_get("x-ms-if-sequence-number-lt"@) == (match *c {
            Some(SequenceNumberCondition::Less(n)) => Some(spec_dec(n as int)),
            _ => old(h).spec_get("x-ms-if-sequence-number-lt"@),
        }),
        final(h).spec_get("x-ms-if-sequence-number-le"@) == (match *c {
            Some(SequenceNumberCondition::LessOrEqual(n)) => Some(spec_dec(n as int)),
            _ => old(h).spec_get("x-ms-if-sequence-number-le"@),
        }),
        final(h).spec_get("x-ms-if-sequence-number-eq"@) == (match *c {
            Some(SequenceNumberCondition::Equal(n)) => Some(spec_dec(n as int)),
            _ => old(h).spec_get("x-ms-if-sequence-number-eq"@),
        }),
        forall|q: Seq<char>|
            !spec_eq_ignore_case(q, "x-ms-if-sequence-number-lt"@) && !spec_eq_ignore_case(
                q,
                "x-ms-if-sequence-number-le"@,
            ) && !spec_eq_ignore_case(q, "x-ms-if-sequence-number-eq"@)
                ==> #[trigger] final(h).spec_get(q) == old(h).spec_get(q),
{
    proof {
        reveal_strlit("x-ms-if-sequence-number-lt");
        reveal_strlit("x-ms-if-sequence-number-le");
        reveal_strlit("x-ms-if-sequence-number-eq");
        assert(!spec_eq_ignore_case("x-ms-if-sequence-number-lt"@, "x-ms-if-sequence-number-le"@)
            && !spec_eq_ignore_case(
            "x-ms-if-sequence-number-le"@,
            "x-ms-if-sequence-number-lt"@,
        )) by {
            assert(spec_lower_code("x-ms-if-sequence-number-lt"@[25]) != spec_lower_code(
                "x-ms-if-sequence-number-le"@[25],
            ));
        }
        assert(!spec_eq_ignore_case("x-ms-if-sequence-number-lt"@, "x-ms-if-sequence-number-eq"@)
            && !spec_eq_ignore_case(
            "x-ms-if-sequence-number-eq"@,
            "x-ms-if-sequence-number-lt"@,
        )) by {
            assert(spec_lower_code("x-ms-if-sequence-number-lt"@[24]) != spec_lower_code(
                "x-ms-if-sequence-number-eq"@[24],
            ));
        }
        assert(!spec_eq_ignore_case("x-ms-if-sequence-number-le"@, "x-ms-if-sequence-number-eq"@)
            && !spec_eq_ignore_case(
            "x-ms-if-sequence-number-eq"@,
            "x-ms-if-sequence-number-le"@,
        )) by {
            assert(spec_lower_code("x-ms-if-sequence-number-le"@[24]) != spec_lower_code(
                "x-ms-if-sequence-number-eq"@[24],
            ));
        }
    }
    match c {
        Some(cond) => {
            let (name, value) = cond.header();
            h.insert(name, value.as_str());
        },
        None => (),
    }
}

/// Adds the modification condition's header; the two names differ in
/// length, so the unchosen one keeps its binding.
fn add_modified_header(h: &mut crate::headers::HeaderMap, c: &Option<IfModifiedSinceCondition>)
    requires
        old(h).wf(),
    ensures
        final(h).wf(),
        final(h).spec_get("if-modified-since"@) == (match *c {
            Some(IfModifiedSinceCondition::Modified(d)) => Some(d@),
            _ => old(h).spec_get("if-modified-since"@),
        }),
        final(h).spec_get("if-unmodified-since"@) == (match *c {
            Some(IfModifiedSinceCondition::Unmodified(d)) => Some(d@),
            _ => old(h).spec_get("if-unmodified-since"@),
        }),
        forall|q: Seq<char>|
            !spec_eq_ignore_case(q, "if-modified-since"@) && !spec_eq_ignore_case(
                q,
                "if-unmodified-since"@,
            ) ==> #[trigger] final(h).spec_get(q) == old(h).spec_get(q),
{
    proof {
        reveal_strlit("if-modified-since");
        reveal_strlit("if-unmodified-since");
    }
    match c {
        Some(cond) => {
            let (name, value) = cond.header();
            h.insert(name, value.as_str());
        },
        None => (),
    }
}

/// Adds the entity-tag condition's header.
fn add_match_header(h: &mut crate::headers::HeaderMap, c: &Option<IfMatchCondition>)
    requires
        old(h).wf(),
    ensures
        final(h).wf(),
        final(h).spec_get("if-match"@) == (match *c {
            Some(IfMatchCondition::Match(e)) => Some(e@),
            _ => old(h).spec_get("if-match"@),
        }),
        final(h).spec_get("if-none-match"@) == (match *c {
            Some(IfMatchCondition::NotMatch(e)) => Some(e@),
            _ => old(h).spec_get("if-none-match"@),
        }),
        forall|q: Seq<char>|
            !spec_eq_ignore_case(q, "if-match"@) && !spec_eq_ignore_case(q, "if-none-match"@)
                ==> #[trigger] final(h).spec_get(q) == old(h).spec_get(q),
{
    proof {
        reveal_strlit("if-match");
        reveal_strlit("if-none-match");
    }
    match c {
        Some(cond) => {
            let (name, value) = cond.header();
            h.insert(name, value.as_str());
        },
        None => (),
    }
}

/// Adds the source modification condition's header.
fn add_source_modified_header(
    h: &mut crate::headers::HeaderMap,
    c: &Option<IfSourceModifiedSinceCondition>,
)
    requires
        old(h).wf(),
    ensures
        final(h).wf(),
        final(h).spec_get("x-ms-source-if-modified-since"@) == (match *c {
            Some(IfSourceModifiedSinceCondition::Modified(d)) => Some(d@),
            _ => old(h).spec_get("x-ms-source-if-modified-since"@),
        }),
        final(h).spec_get("x-ms-source-if-unmodified-since"@) == (match *c {
            Some(IfSourceModifiedSinceCondition::Unmodified(d)) => Some(d@),
            _ => old(h).spec_get("x-ms-source-if-unmodified-since"@),
        }),
        forall|q: Seq<char>|
            !spec_eq_ignore_case(q, "x-ms-source-if-modified-since"@) && !spec_eq_ignore_case(
                q,
                "x-ms-source-if-unmodified-since"@,
            ) ==> #[trigger] final(h).spec_get(q) == old(h).spec_get(q),
{
    proof {
        reveal_strlit("x-ms-source-if-modified-since");
        reveal_strlit("x-ms-source-if-unmodified-since");
    }
    match c {
        Some(cond) => {
            let (name, value) = cond.header();
            h.insert(name, value.as_str());
        },
        None => (),
    }
}

/// Adds the source entity-tag condition's header.
fn add_source_match_header(
    h: &mut crate::headers::HeaderMap,
    c: &Option<IfSourceMatchCondition>,
)
    requires
        old(h).wf(),
    ensures
        final(h).wf(),
        final(h).spec_get("x-ms-source-if-match"@) == (match *c {
            Some(IfSourceMatchCondition::Match(e)) => Some(e@),
            _ => old(h).spec_get("x-ms-source-if-match"@),
        }),
        final(h).spec_get("x-ms-source-if-none-match"@) == (match *c {
            Some(IfSourceMatchCondition::NotMatch(e)) => Some(e@),
            _ => old(h).spec_get("x-ms-source-if-none-match"@),
        }),
        forall|q: Seq<char>|
            !spec_eq_ignore_case(q, "x-ms-source-if-match"@) && !spec_eq_ignore_case(
                q,
                "x-ms-source-if-none-match"@,
            ) ==> #[trigger] final(h).spec_get(q) == old(h).spec_get(q),
{
    proof {
        reveal_strlit("x-ms-source-if-match");
        reveal_strlit("x-ms-source-if-none-match");
    }
    match c {
        Some(cond) => {
            let (name, value) = cond.header();
            h.insert(name, value.as_str());
        },
        None => (),
    }
}

/// Preservation of one fixed name through the metadata inserts, given a
/// position where the name differs from the metadata prefix.
proof fn lemma_meta_preserves(
    h0: crate::headers::HeaderMap,
    h: crate::headers::HeaderMap,
    md: Seq<(Seq<char>, Seq<char>)>,
    n: int,
    f: Seq<char>,
    idx: int,
)
    requires
        n == md.len(),
        forall|q: Seq<char>|
            (forall|j: int| 0 <= j < n ==> !spec_eq_ignore_case(q, spec_meta_name(md[j].0)))
                ==> #[trigger] h.spec_get(q) == h0.spec_get(q),
        "x-ms-meta-"@.len() == 10,
        0 <= idx < 10,
        idx < f.len(),
        spec_lower_code(f[idx]) != spec_lower_code("x-ms-meta-"@[idx]),
    ensures
        h.spec_get(f) == h0.spec_get(f),
{
    assert forall|j: int| 0 <= j < n implies !spec_eq_ignore_case(f, spec_meta_name(md[j].0)) by {
        lemma_meta_not_ci(md[j].0, f, idx);
    }
}

/// The fixed copy headers survive the metadata inserts: no metadata
/// header name can collide with any of them.
proof fn lemma_copy_fixed_preserved(
    h0: crate::headers::HeaderMap,
    h: crate::headers::HeaderMap,
    md: Seq<(Seq<char>, Seq<char>)>,
    n: int,
)
    requires
        n == md.len(),
        forall|q: Seq<char>|
            (forall|j: int| 0 <= j < n ==> !spec_eq_ignore_case(q, spec_meta_name(md[j].0)))
                ==> #[trigger] h.spec_get(q) == h0.spec_get(q),
        "x-ms-meta-"@.len() == 10,
        spec_lower_code("x-ms-meta-"@[0]) == 'x' as u32,
        spec_lower_code("x-ms-meta-"@[5]) == 'm' as u32,
    ensures
        h.spec_get("x-ms-copy-source"@) == h0.spec_get("x-ms-copy-source"@),
        h.spec_get("x-ms-if-sequence-number-lt"@) == h0.spec_get("x-ms-if-sequence-number-lt"@),
        h.spec_get("x-ms-if-sequence-number-le"@) == h0.spec_get("x-ms-if-sequence-number-le"@),
        h.spec_get("x-ms-if-sequence-number-eq"@) == h0.spec_get("x-ms-if-sequence-number-eq"@),
        h.spec_get("if-modified-since"@) == h0.spec_get("if-modified-since"@),
        h.spec_get("if-unmodified-since"@) == h0.spec_get("if-unmodified-since"@),
        h.spec_get("if-match"@) == h0.spec_get("if-match"@),
        h.spec_get("if-none-match"@) == h0.spec_get("if-none-match"@),
        h.spec_get("x-ms-access-tier"@) == h0.spec_get("x-ms-access-tier"@),
        h.spec_get("x-ms-lease-id"@) == h0.spec_get("x-ms-lease-id"@),
        h.spec_get("x-ms-source-if-modified-since"@) == h0.spec_get(
            "x-ms-source-if-modified-since"@,
        ),
        h.spec_get("x-ms-source-if-unmodified-since"@) == h0.spec_get(
            "x-ms-source-if-unmodified-since"@,
        ),
        h.spec_get("x-ms-source-if-match"@) == h0.spec_get("x-ms-source-if-match"@),
        h.spec_get("x-ms-source-if-none-match"@) == h0.spec_get("x-ms-source-if-none-match"@),
        h.spec_get("x-ms-source-lease-id"@) == h0.spec_get("x-ms-source-lease-id"@),
        h.spec_get("x-ms-rehydrate-priority"@) == h0.spec_get("x-ms-rehydrate-priority"@),
{
    reveal_strlit("x-ms-copy-source");
    reveal_strlit("x-ms-if-sequence-number-lt");
    reveal_strlit("x-ms-if-sequence-number-le");
    reveal_strlit("x-ms-if-sequence-number-eq");
    reveal_strlit("if-modified-since");
    reveal_strlit("if-unmodified-since");
    reveal_strlit("if-match");
    reveal_strlit("if-none-match");
    reveal_strlit("x-ms-access-tier");
    reveal_strlit("x-ms-lease-id");
    reveal_strlit("x-ms-source-if-modified-since");
    reveal_strlit("x-ms-source-if-unmodified-since");
    reveal_strlit("x-ms-source-if-match");
    reveal_strlit("x-ms-source-if-none-match");
    reveal_strlit("x-ms-source-lease-id");
    reveal_strlit("x-ms-rehydrate-priority");
    lemma_meta_preserves(h0, h, md, n, "x-ms-copy-source"@, 5);
    lemma_meta_preserves(h0, h, md, n, "x-ms-if-sequence-number-lt"@, 5);
    lemma_meta_preserves(h0, h, md, n, "x-ms-if-sequence-number-le"@, 5);
    lemma_meta_preserves(h0, h, md, n, "x-ms-if-sequence-number-eq"@, 5);
    lemma_meta_preserves(h0, h, md, n, "if-modified-since"@, 0);
    lemma_meta_preserves(h0, h, md, n, "if-unmodified-since"@, 0);
    lemma_meta_preserves(h0, h, md, n, "if-match"@, 0);
    lemma_meta_preserves(h0, h, md, n, "if-none-match"@, 0);
    lemma_meta_preserves(h0, h, md, n, "x-ms-access-tier"@, 5);
    lemma_meta_preserves(h0, h, md, n, "x-ms-lease-id"@, 5);
    lemma_meta_preserves(h0, h, md, n, "x-ms-source-if-modified-since"@, 5);
    lemma_meta_preserves(h0, h, md, n, "x-ms-source-if-unmodified-since"@, 5);
    lemma_meta_preserves(h0, h, md, n, "x-ms-source-if-match"@, 5);
    lemma_meta_preserves(h0, h, md, n, "x-ms-source-if-none-match"@, 5);
    lemma_meta_preserves(h0, h, md, n, "x-ms-source-lease-id"@, 5);
    lemma_meta_preserves(h0, h, md, n, "x-ms-rehydrate-priority"@, 5);
}

impl SequenceNumberCondition {
    pub fn header(&self) -> (r: (&'static str, String))
        ensures
            (r.0@, r.1@) == spec_seqnum_header(*self),
    {
        match self {
            SequenceNumberCondition::Less(n) => ("x-ms-if-sequence-number-lt", fmt_u64(*n)),
            SequenceNumberCondition::LessOrEqual(n) => ("x-ms-if-sequence-number-le", fmt_u64(*n)),
            SequenceNumberCondition::Equal(n) => ("x-ms-if-sequence-number-eq", fmt_u64(*n)),
        }
    }
}

impl IfModifiedSinceCondition {
    pub fn header(&self) -> (r: (&'static str, String))
        ensures
            (r.0@, r.1@) == spec_modified_header(*self),
    {
        match self {
            IfModifiedSinceCondition::Modified(d) => (
                "if-modified-since",
                String::from_str(d.as_str()),
            ),
            IfModifiedSinceCondition::Unmodified(d) => (
                "if-unmodified-since",
                String::from_str(d.as_str()),
            ),
        }
    }
}

impl IfMatchCondition {
    pub fn header(&self) -> (r: (&'static str, String))
        ensures
            (r.0@, r.1@) == spec_match_header(*self),
    {
        match self {
            IfMatchCondition::Match(e) => ("if-match", String::from_str(e.as_str())),
            IfMatchCondition::NotMatch(e) => ("if-none-match", String::from_str(e.as_str())),
        }
    }
}

impl IfSourceModifiedSinceCondition {
    pub fn header(&self) -> (r: (&'static str, String))
        ensures
            (r.0@, r.1@) == spec_source_modified_header(*self),
    {
        match self {
            IfSourceModifiedSinceCondition::Modified(d) => (
                "x-ms-source-if-modified-since",
                String::from_str(d.as_str()),
            ),
            IfSourceModifiedSinceCondition::Unmodified(d) => (
                "x-ms-source-if-unmodified-since",
                String::from_str(d.as_str()),
            ),
        }
    }
}

impl IfSourceMatchCondition {
    pub fn header(&self) -> (r: (&'static str, String))
        ensures
            (r.0@, r.1@) == spec_source_match_header(*self),
    {
        match self {
            IfSourceMatchCondition::Match(e) => (
                "x-ms-source-if-match",
                String::from_str(e.as_str()),
            ),
            IfSourceMatchCondition::NotMatch(e) => (
                "x-ms-source-if-none-match",
                String::from_str(e.as_str()),
            ),
        }
    }
}

impl RehydratePriority {
    pub fn value(&self) -> (r: &'static str)
        ensures
            r@ == spec_rehydrate_value(*self),
    {
        proof {
            reveal_strlit("High");
            reveal_strlit("Standard");
        }
        match self {
            RehydratePriority::High => "High",
            RehydratePriority::Standard => "Standard",
        }
    }
}

/// The state of a copy operation, as the service reports it.
#[derive(Clone, Copy, Debug, PartialEq, Eq, Structural)]
pub enum CopyStatus {
    Pending,
    Success,
    Aborted,
    Failed,
}

pub open spec fn spec_parse_copy_status(s: Seq<char>) -> Option<CopyStatus> {
    if s == "pending"@ {
        Some(CopyStatus::Pending)
    } else if s == "success"@ {
        Some(CopyStatus::Success)
    } else if s == "aborted"@ {
        Some(CopyStatus::Aborted)
    } else if s == "failed"@ {
        Some(CopyStatus::Failed)
    } else {
        None
    }
}

pub fn parse_copy_status(s: &str) -> (r: Option<CopyStatus>)
    ensures
        r == spec_parse_copy_status(s@),
{
    if str_eq(s, "pending") {
        Some(CopyStatus::Pending)
    } else if str_eq(s, "success") {
        Some(CopyStatus::Success)
    } else if str_eq(s, "aborted") {
        Some(CopyStatus::Aborted)
    } else if str_eq(s, "failed") {
        Some(CopyStatus::Failed)
    } else {
        None
    }
}

/// Every header the copy response is decoded from is present and, where
/// parsed, parses.
pub open spec fn spec_copy_blob_decodable(resp: Response) -> bool {
    &&& resp.headers.spec_get("etag"@) is Some
    &&& resp.headers.spec_get("last-modified"@) matches Some(v) && http_date_of(v) is Some
    &&& resp.headers.spec_get("x-ms-request-id"@) is Some
    &&& resp.headers.spec_get("x-ms-version"@) is Some
    &&& resp.headers.spec_get("server"@) is Some
    &&& resp.headers.spec_get("date"@) matches Some(v) && http_date_of(v) is Some
    &&& resp.headers.spec_get("x-ms-copy-id"@) is Some
    &&& resp.headers.spec_get("x-ms-copy-status"@) matches Some(v) && spec_parse_copy_status(v)
        is Some
}

/// The decoded copy response: identifiers and entity tags as opaque
/// strings, timestamps as instants.
#[derive(Debug)]
pub struct CopyBlobResponse {
    pub etag: String,
    pub last_modified: i64,
    pub request_id: String,
    pub version: String,
    pub server: String,
    pub date: i64,
    pub copy_id: String,
    pub copy_status: CopyStatus,
}

impl CopyBlobResponse {
    /// Decodes the copy response from its headers. Success is owed
    /// exactly when every required header is present and parses; every
    /// failure is a decoding fault, never a status failure.
    pub fn from_headers(resp: &Response) -> (r: Result<CopyBlobResponse, Error>)
        ensures
            r is Ok <==> spec_copy_blob_decodable(*resp),
            r matches Ok(c) ==> {
                &&& resp.headers.spec_get("etag"@) == Some(c.etag@)
                &&& resp.headers.spec_get("last-modified"@) matches Some(v) && http_date_of(v)
                    == Some(c.last_modified)
                &&& resp.headers.spec_get("x-ms-request-id"@) == Some(c.request_id@)
                &&& resp.headers.spec_get("x-ms-version"@) == Some(c.version@)
                &&& resp.headers.spec_get("server"@) == Some(c.server@)
                &&& resp.headers.spec_get("date"@) matches Some(v) && http_date_of(v) == Some(
                    c.date,
                )
                &&& resp.headers.spec_get("x-ms-copy-id"@) == Some(c.copy_id@)
                &&& resp.headers.spec_get("x-ms-copy-status"@) matches Some(v)
                    && spec_parse_copy_status(v) == Some(c.copy_status)
            },
            r matches Err(e) ==> (e matches Error::Decode { fault } && {
                let h = resp.headers;
                if h.spec_get("etag"@) is None {
                    spec_is_missing(fault, "etag"@)
                } else if !spec_date_ok(h, "last-modified"@) {
                    spec_date_fault(h, "last-modified"@, fault)
                } else if h.spec_get("x-ms-request-id"@) is None {
                    spec_is_missing(fault, "x-ms-request-id"@)
                } else if h.spec_get("x-ms-version"@) is None {
                    spec_is_missing(fault, "x-ms-version"@)
                } else if h.spec_get("server"@) is None {
                    spec_is_missing(fault, "server"@)
                } else if !spec_date_ok(h, "date"@) {
                    spec_date_fault(h, "date"@, fault)
                } else if h.spec_get("x-ms-copy-id"@) is None {
                    spec_is_missing(fault, "x-ms-copy-id"@)
                } else if h.spec_get("x-ms-copy-status"@) is None {
                    spec_is_missing(fault, "x-ms-copy-status"@)
                } else {
                    spec_is_malformed(fault, "x-ms-copy-status"@)
                }
            }),
    {
        let etag = match required_header(resp, "etag") {
            Ok(v) => v,
            Err(e) => {
                return Err(e);
            },
        };
        let last_modified = match required_date_header(resp, "last-modified") {
            Ok(v) => v,
            Err(e) => {
                return Err(e);
            },
        };
        let request_id = match required_header(resp, "x-ms-request-id") {
            Ok(v) => v,
            Err(e) => {
                return Err(e);
            },
        };
        let version = match required_header(resp, "x-ms-version") {
            Ok(v) => v,
            Err(e) => {
                return Err(e);
            },
        };
        let server = match required_header(resp, "server") {
            Ok(v) => v,
            Err(e) => {
                return Err(e);
            },
        };
        let date = match required_date_header(resp, "date") {
            Ok(v) => v,
            Err(e) => {
                return Err(e);
            },
        };
        let copy_id = match required_header(resp, "x-ms-copy-id") {
            Ok(v) => v,
            Err(e) => {
                return Err(e);
            },
        };
        let status_text = match required_header(resp, "x-ms-copy-status") {
            Ok(v) => v,
            Err(e) => {
                return Err(e);
            },
        };
        let copy_status = match parse_copy_status(status_text.as_str()) {
            Some(s) => s,
            None => {
                return Err(
                    Error::Decode {
                        fault: DecodeFault::MalformedHeader {
                            name: String::from_str("x-ms-copy-status"),
                        },
                    },
                );
            },
        };
        Ok(
            CopyBlobResponse {
                etag,
                last_modified,
                request_id,
                version,
                server,
                date,
                copy_id,
                copy_status,
            },
        )
    }
}

/// What one byte becomes in an escaped text node.
pub open spec fn spec_escape_byte(c: u8) -> Seq<u8> {
    if c == 38 {
        seq![38u8, 97u8, 109u8, 112u8, 59u8]
    } else if c == 60 {
        seq![38u8, 108u8, 116u8, 59u8]
    } else if c == 62 {
        seq![38u8, 103u8, 116u8, 59u8]
    } else if c == 34 {
        seq![38u8, 113u8, 117u8, 111u8, 116u8, 59u8]
    } else if c == 39 {
        seq![38u8, 97u8, 112u8, 111u8, 115u8, 59u8]
    } else {
        seq![c]
    }
}

/// The markup-escaped form of a text node's bytes.
pub open spec fn spec_xml_escape(b: Seq<u8>) -> Seq<u8>
    decreases b.len(),
{
    if b.len() == 0 {
        Seq::<u8>::empty()
    } else {
        spec_xml_escape(b.drop_last()) + spec_escape_byte(b.last())
    }
}

fn push_escaped(dst: &mut Vec<u8>, c: u8)
    ensures
        final(dst)@ == old(dst)@ + spec_escape_byte(c),
{
    let ghost pre = dst@;
    if c == 38 {
        dst.push(38);
        dst.push(97);
        dst.push(109);
        dst.push(112);
        dst.push(59);
    } else if c == 60 {
        dst.push(38);
        dst.push(108);
        dst.push(116);
        dst.push(59);
    } else if c == 62 {
        dst.push(38);
        dst.push(103);
        dst.push(116);
        dst.push(59);
    } else if c == 34 {
        dst.push(38);
        dst.push(113);
        dst.push(117);
        dst.push(111);
        dst.push(116);
        dst.push(59);
    } else if c == 39 {
        dst.push(38);
        dst.push(97);
        dst.push(112);
        dst.push(111);
        dst.push(115);
        dst.push(59);
    } else {
        dst.push(c);
    }
    proof {
        assert(dst@ =~= pre + spec_escape_byte(c));
    }
}

fn append_escaped(dst: &mut Vec<u8>, src: &[u8])
    ensures
        final(dst)@ == old(dst)@ + spec_xml_escape(src@),
{
    let ghost pre = dst@;
    let len = src.len();
    let mut i: usize = 0;
    proof {
        assert(spec_xml_escape(src@.take(0)) =~= Seq::<u8>::empty());
        assert(dst@ =~= pre + spec_xml_escape(src@.take(0)));
    }
    while i < len
        invariant
            len == src@.len(),
            i <= len,
            dst@ == pre + spec_xml_escape(src@.take(i as int)),
        decreases len - i,
    {
        push_escaped(dst, src[i]);
        proof {
            assert(src@.take(i + 1).drop_last() =~= src@.take(i as int));
            assert(src@.take(i + 1).last() == src@[i as int]);
        }
        i += 1;
    }
    proof {
        assert(src@.take(len as int) =~= src@);
    }
}

fn append_bytes(dst: &mut Vec<u8>, src: &[u8])
    ensures
        final(dst)@ == old(dst)@ + src@,
{
    let ghost pre = dst@;
    let len = src.len();
    let mut i: usize = 0;
    while i < len
        invariant
            len == src@.len(),
            i <= len,
            dst@ == pre + src@.take(i as int),
        decreases len - i,
    {
        dst.push(src[i]);
        proof {
            assert(pre + src@.take(i + 1) =~= (pre + src@.take(i as int)).push(src@[i as int]));
        }
        i += 1;
    }
    proof {
        assert(src@.take(len as int) =~= src@);
    }
}

/// One tag element: the escaped key and the escaped value.
pub open spec fn spec_tag_item(t: (Seq<char>, Seq<char>)) -> Seq<u8> {
    encode_utf8("<Tag><Key>"@) + spec_xml_escape(encode_utf8(t.0)) + encode_utf8("</Key><Value>"@)
        + spec_xml_escape(encode_utf8(t.1)) + encode_utf8("</Value></Tag>"@)
}

pub open spec fn spec_tag_items(tags: Seq<(Seq<char>, Seq<char>)>) -> Seq<u8>
    decreases tags.len(),
{
    if tags.len() == 0 {
        Seq::<u8>::empty()
    } else {
        spec_tag_items(tags.drop_last()) + spec_tag_item(tags.last())
    }
}

/// The markup document the tag set is sent as.
pub open spec fn spec_tags_xml(tags: Seq<(Seq<char>, Seq<char>)>) -> Seq<u8> {
    encode_utf8("<Tags><TagSet>"@) + spec_tag_items(tags) + encode_utf8("</TagSet></Tags>"@)
}

/// Sets the tags of the blob at `blob_url`.
#[derive(Debug)]
pub struct SetTagsBuilder {
    pub blob_url: String,
    pub tags: Vec<(String, String)>,
    pub lease_id: Option<String>,
}

impl SetTagsBuilder {
    pub fn new(blob_url: &str, tags: Vec<(String, String)>) -> (r: SetTagsBuilder)
        ensures
            r.blob_url@ == blob_url@,
            r.tags == tags,
            r.lease_id is None,
    {
        SetTagsBuilder { blob_url: String::from_str(blob_url), tags, lease_id: None }
    }

    /// Closes the builder into the set-tags request: a put against the
    /// blob URL with the tags query selector appended, the lease header
    /// when one is held, and the tag set as the markup body.
    #[verifier::loop_isolation(false)]
    pub fn build_request(&self) -> (r: Result<Request, Error>)
        ensures
            r is Ok <==> url_split_of(self.blob_url@) is Some,
            r matches Err(e) ==> e matches Error::InvalidUrl { url } && url@ == self.blob_url@,
            r matches Ok(req) ==> (url_split_of(self.blob_url@) matches Some(sp) && {
                &&& req.url.base@ == sp.0
                &&& req.url.spec_pairs() == sp.1.push(("comp"@, "tags"@))
                &&& req.method == Method::Put
                &&& req.idempotent
                &&& req.body@ == spec_tags_xml(spec_md_view(self.tags@))
                &&& req.wf()
                &&& req.headers.spec_get("x-ms-lease-id"@) == (match self.lease_id {
                    Some(l) => Some(l@),
                    None => None::<Seq<char>>,
                })
            }),
    {
        let mut url = match RequestUrl::parse(self.blob_url.as_str()) {
            Ok(u) => u,
            Err(e) => {
                return Err(e);
            },
        };
        url.append_pair("comp", "tags");
        let mut req = Request::new(Method::Put, url);
        proof {
            lemma_lookup_empty("x-ms-lease-id"@);
        }
        match &self.lease_id {
            Some(l) => req.headers.insert("x-ms-lease-id", l.as_str()),
            None => (),
        }
        let mut body: Vec<u8> = Vec::new();
        append_bytes(&mut body, "<Tags><TagSet>".as_bytes());
        let ghost tags_view = spec_md_view(self.tags@);
        let len = self.tags.len();
        let mut i: usize = 0;
        proof {
            assert(spec_tag_items(tags_view.take(0)) =~= Seq::<u8>::empty());
            assert(body@ =~= encode_utf8("<Tags><TagSet>"@) + spec_tag_items(tags_view.take(0)));
        }
        while i < len
            invariant
                len == self.tags@.len(),
                i <= len,
                body@ == encode_utf8("<Tags><TagSet>"@) + spec_tag_items(tags_view.take(i as int)),
            decreases len - i,
        {
            let entry = &self.tags[i];
            append_bytes(&mut body, "<Tag><Key>".as_bytes());
            append_escaped(&mut body, entry.0.as_str().as_bytes());
            append_bytes(&mut body, "</Key><Value>".as_bytes());
            append_escaped(&mut body, entry.1.as_str().as_bytes());
            append_bytes(&mut body, "</Value></Tag>".as_bytes());
            proof {
                assert(tags_view.take(i + 1).drop_last() =~= tags_view.take(i as int));
                assert(tags_view.take(i + 1).last() == tags_view[i as int]);
                assert(body@ =~= encode_utf8("<Tags><TagSet>"@) + spec_tag_items(
                    tags_view.take(i + 1),
                ));
            }
            i += 1;
        }
        append_bytes(&mut body, "</TagSet></Tags>".as_bytes());
        req.set_body(body);
        proof {
            assert(tags_view.take(len as int) =~= tags_view);
            assert(req.body@ =~= spec_tags_xml(tags_view));
        }
        Ok(req)
    }
}

/// The decoded set-tags response.
#[derive(Debug)]
pub struct SetTagsResponse {
    pub request_id: String,
    pub date: i64,
}

impl SetTagsResponse {
    /// Decodes the set-tags response from its headers; success is owed
    /// exactly when both headers are present and the date parses.
    pub fn from_headers(resp: &Response) -> (r: Result<SetTagsResponse, Error>)
        ensures
            r is Ok <==> (resp.headers.spec_get("x-ms-request-id"@) is Some
                && (resp.headers.spec_get("date"@) matches Some(v) && http_date_of(v) is Some)),
            r matches Ok(c) ==> {
                &&& resp.headers.spec_get("x-ms-request-id"@) == Some(c.request_id@)
                &&& resp.headers.spec_get("date"@) matches Some(v) && http_date_of(v) == Some(
                    c.date,
                )
            },
            r matches Err(e) ==> (e matches Error::Decode { fault } && {
                let h = resp.headers;
                if h.spec_get("x-ms-request-id"@) is None {
                    spec_is_missing(fault, "x-ms-request-id"@)
                } else {
                    spec_date_fault(h, "date"@, fault)
                }
            }),
    {
        let request_id = match required_header(resp, "x-ms-request-id") {
            Ok(v) => v,
            Err(e) => {
                return Err(e);
            },
        };
        let date = match required_date_header(resp, "date") {
            Ok(v) => v,
            Err(e) => {
                return Err(e);
            },
        };
        Ok(SetTagsResponse { request_id, date })
    }
}

} // verus!
