//! A request URL held as a base text plus decoded query pairs, so that
//! query handling — in particular the rule that the version selector is
//! appended only when absent — is plain data the proofs can see.

use vstd::prelude::*;
use vstd::utf8::encode_utf8;

use crate::errors::Error;
use crate::outside::{encode_component, form_encoded_of, split_url, url_split_of};
use crate::strutil::str_eq;

verus! {

/// One encoded `name=value` unit of a query string.
pub open spec fn spec_encoded_pair(k: Seq<char>, v: Seq<char>) -> Seq<char> {
    form_encoded_of(encode_utf8(k)) + seq!['='] + form_encoded_of(encode_utf8(v))
}

/// The encoded query string of a pair sequence, pairs in order, joined by
/// ampersands.
pub open spec fn spec_query(pairs: Seq<(Seq<char>, Seq<char>)>) -> Seq<char>
    decreases pairs.len(),
{
    if pairs.len() == 0 {
        Seq::<char>::empty()
    } else if pairs.len() == 1 {
        spec_encoded_pair(pairs[0].0, pairs[0].1)
    } else {
        spec_query(pairs.drop_last()) + seq!['&'] + spec_encoded_pair(
            pairs.last().0,
            pairs.last().1,
        )
    }
}

/// The full URL text: the base, then `?` and the query when any pair is
/// present.
pub open spec fn spec_render(base: Seq<char>, pairs: Seq<(Seq<char>, Seq<char>)>) -> Seq<char> {
    if pairs.len() == 0 {
        base
    } else {
        base + seq!['?'] + spec_query(pairs)
    }
}

/// Whether a pair sequence holds a pair with exactly this (decoded) key.
pub open spec fn spec_has_key(pairs: Seq<(Seq<char>, Seq<char>)>, key: Seq<char>) -> bool {
    exists|i: int| 0 <= i < pairs.len() && (#[trigger] pairs[i]).0 == key
}

/// A URL split into its base text and its decoded query pairs.
#[derive(Debug)]
pub struct RequestUrl {
    pub base: String,
    pub pairs: Vec<(String, String)>,
}

impl RequestUrl {
    pub open spec fn spec_pairs(&self) -> Seq<(Seq<char>, Seq<char>)> {
        self.pairs@.map_values(|e: (String, String)| (e.0@, e.1@))
    }

    /// Whether a pair with exactly this (decoded) key is present.
    pub open spec fn spec_has_param(&self, key: Seq<char>) -> bool {
        spec_has_key(self.spec_pairs(), key)
    }

    /// Splits a URL text. The text must parse as a URL; its query pairs
    /// are taken out and held decoded.
    pub fn parse(s: &str) -> (r: Result<RequestUrl, Error>)
        ensures
            r matches Ok(u) ==> url_split_of(s@) == Some((u.base@, u.spec_pairs())),
            r matches Err(e) ==> url_split_of(s@) is None && (e matches Error::InvalidUrl { url }
                && url@ == s@),
    {
        match split_url(s) {
            Some(p) => {
                let u = RequestUrl { base: p.0, pairs: p.1 };
                Ok(u)
            },
            None => Err(Error::InvalidUrl { url: String::from_str(s) }),
        }
    }

    pub fn append_pair(&mut self, key: &str, value: &str)
        ensures
            final(self).base == old(self).base,
            final(self).spec_pairs() =~= old(self).spec_pairs().push((key@, value@)),
    {
        self.pairs.push((String::from_str(key), String::from_str(value)));
        proof {
            assert(self.spec_pairs() =~= old(self).spec_pairs().push((key@, value@)));
        }
    }

    pub fn has_param(&self, key: &str) -> (r: bool)
        ensures
            r == self.spec_has_param(key@),
    {
        let len = self.pairs.len();
        let mut i: usize = 0;
        while i < len
            invariant
                len == self.spec_pairs().len(),
                i <= len,
                forall|j: int| 0 <= j < i ==> (#[trigger] self.spec_pairs()[j]).0 != key@,
            decreases len - i,
        {
            if str_eq(self.pairs[i].0.as_str(), key) {
                proof {
                    assert((self.spec_pairs()[i as int]).0 == key@);
                }
                return true;
            }
            i += 1;
        }
        false
    }

    /// Appends `(key, value)` only when no pair with that key is present:
    /// the wire rule for the version selector.
    pub fn append_pair_if_absent(&mut self, key: &str, value: &str)
        ensures
            final(self).base == old(self).base,
            old(self).spec_has_param(key@) ==> final(self).spec_pairs() == old(self).spec_pairs(),
            !old(self).spec_has_param(key@) ==> final(self).spec_pairs() =~= old(
                self,
            ).spec_pairs().push((key@, value@)),
    {
        if !self.has_param(key) {
            self.append_pair(key, value);
        }
    }

    /// The full URL text, query pairs form-encoded in order.
    pub fn render(&self) -> (r: String)
        ensures
            r@ == spec_render(self.base@, self.spec_pairs()),
    {
        proof {
            reveal_strlit("?");
            reveal_strlit("&");
            reveal_strlit("=");
        }
        let mut s = String::from_str(self.base.as_str());
        let len = self.pairs.len();
        if len == 0 {
            return s;
        }
        let mut i: usize = 0;
        while i < len
            invariant
                len == self.spec_pairs().len(),
                0 < len,
                i <= len,
                "?"@ =~= seq!['?'],
                "&"@ =~= seq!['&'],
                "="@ =~= seq!['='],
                i == 0 ==> s@ == self.base@,
                i > 0 ==> s@ == self.base@ + seq!['?'] + spec_query(self.spec_pairs().take(i as int)),
            decreases len - i,
        {
            if i == 0 {
                s.append("?");
            } else {
                s.append("&");
            }
            let k = encode_component(self.pairs[i].0.as_str());
            s.append(k.as_str());
            s.append("=");
            let v = encode_component(self.pairs[i].1.as_str());
            s.append(v.as_str());
            proof {
                let ps = self.spec_pairs();
                assert(ps.take(i + 1).drop_last() =~= ps.take(i as int));
                assert(ps.take(i + 1).last() == ps[i as int]);
                if i == 0 {
                    assert(ps.take(1).len() == 1);
                    assert(s@ =~= self.base@ + seq!['?'] + spec_query(ps.take(1)));
                } else {
                    assert(s@ =~= self.base@ + seq!['?'] + spec_query(ps.take(i + 1)));
                }
            }
            i += 1;
        }
        proof {
            assert(self.spec_pairs().take(len as int) =~= self.spec_pairs());
        }
        s
    }

    /// An order-preserving copy.
    pub fn duplicate(&self) -> (r: RequestUrl)
        ensures
            r.base@ == self.base@,
            r.spec_pairs() == self.spec_pairs(),
    {
        let base = String::from_str(self.base.as_str());
        let len = self.pairs.len();
        let mut pairs: Vec<(String, String)> = Vec::new();
        let mut i: usize = 0;
        while i < len
            invariant
                len == self.pairs@.len(),
                i <= len,
                pairs@.len() == i,
                forall|j: int|
                    0 <= j < i ==> #[trigger] pairs@[j].0@ == self.pairs@[j].0@ && pairs@[j].1@
                        == self.pairs@[j].1@,
            decreases len - i,
        {
            let e = &self.pairs[i];
            pairs.push((String::from_str(e.0.as_str()), String::from_str(e.1.as_str())));
            i += 1;
        }
        let r = RequestUrl { base, pairs };
        proof {
            assert(r.spec_pairs() =~= self.spec_pairs());
        }
        r
    }
}

} // verus!
