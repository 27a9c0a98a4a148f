//! A header map with case-insensitive names and last-write-wins values.

use vstd::prelude::*;

use crate::strutil::{spec_eq_ignore_case, str_eq_ignore_case};

verus! {

/// The first value stored under a name that equals `name` up to ASCII
/// case, if any.
pub open spec fn spec_lookup(entries: Seq<(Seq<char>, Seq<char>)>, name: Seq<char>) -> Option<
    Seq<char>,
>
    decreases entries.len(),
{
    if entries.len() == 0 {
        None
    } else if spec_eq_ignore_case(entries[0].0, name) {
        Some(entries[0].1)
    } else {
        spec_lookup(entries.drop_first(), name)
    }
}

/// An ordered collection of header name/value pairs. Names compare
/// case-insensitively, and inserting under an existing name replaces its
/// value, so each name occurs at most once.
#[derive(Debug)]
pub struct HeaderMap {
    entries: Vec<(String, String)>,
}

impl View for HeaderMap {
    type V = Seq<(Seq<char>, Seq<char>)>;

    closed spec fn view(&self) -> Seq<(Seq<char>, Seq<char>)> {
        self.entries@.map_values(|e: (String, String)| (e.0@, e.1@))
    }
}

impl HeaderMap {
    /// No two stored names are equal up to case.
    pub open spec fn wf(&self) -> bool {
        forall|i: int, j: int|
            0 <= i < j < self@.len() ==> !spec_eq_ignore_case(self@[i].0, self@[j].0)
    }

    pub open spec fn spec_get(&self, name: Seq<char>) -> Option<Seq<char>> {
        spec_lookup(self@, name)
    }

    pub fn new() -> (r: HeaderMap)
        ensures
            r@ =~= Seq::<(Seq<char>, Seq<char>)>::empty(),
            r.wf(),
    {
        HeaderMap { entries: Vec::new() }
    }

    pub fn len(&self) -> (n: usize)
        ensures
            n == self@.len(),
    {
        self.entries.len()
    }

    /// The pair at position `i`, for walking the map in insertion order.
    pub fn entry_at(&self, i: usize) -> (r: (&String, &String))
        requires
            i < self@.len(),
        ensures
            r.0@ == self@[i as int].0,
            r.1@ == self@[i as int].1,
    {
        let e = &self.entries[i];
        (&e.0, &e.1)
    }

    fn position_of(&self, name: &str) -> (r: Option<usize>)
        ensures
            r matches Some(i) ==> i < self@.len() && spec_eq_ignore_case(self@[i as int].0, name@)
                && forall|j: int| 0 <= j < i ==> !spec_eq_ignore_case(self@[j].0, name@),
            r is None ==> forall|j: int|
                0 <= j < self@.len() ==> !spec_eq_ignore_case(self@[j].0, name@),
    {
        let len = self.entries.len();
        let mut i: usize = 0;
        while i < len
            invariant
                len == self@.len(),
                i <= len,
                forall|j: int| 0 <= j < i ==> !spec_eq_ignore_case(self@[j].0, name@),
            decreases len - i,
        {
            if str_eq_ignore_case(self.entries[i].0.as_str(), name) {
                return Some(i);
            }
            i += 1;
        }
        None
    }

    /// Stores `value` under `name`. A later write under a name that equals
    /// an earlier one up to case replaces the earlier value in place;
    /// otherwise the pair is appended.
    pub fn insert(&mut self, name: &str, value: &str)
        requires
            old(self).wf(),
        ensures
            final(self).wf(),
            forall|q: Seq<char>|
                spec_eq_ignore_case(q, name@) ==> #[trigger] final(self).spec_get(q) == Some(
                    value@,
                ),
            forall|q: Seq<char>|
                !spec_eq_ignore_case(q, name@) ==> #[trigger] final(self).spec_get(q) == old(
                    self,
                ).spec_get(q),
            final(self)@.len() == if (exists|j: int|
                0 <= j < old(self)@.len() && spec_eq_ignore_case(
                    #[trigger] old(self)@[j].0,
                    name@,
                )) {
                old(self)@.len()
            } else {
                old(self)@.len() + 1
            },
    {
        let ghost pre = self@;
        match self.position_of(name) {
            Some(i) => {
                self.entries[i] = (String::from_str(name), String::from_str(value));
                proof {
                    assert(self@ =~= pre.update(i as int, (name@, value@)));
                    lemma_lookup_update(pre, i as int, name@, value@);
                    assert forall|q: Seq<char>| !spec_eq_ignore_case(q, name@) implies #[trigger] self
                        .spec_get(q) == spec_lookup(pre, q) by {
                        lemma_lookup_update_other(pre, i as int, name@, value@, q);
                    }
                    assert forall|a: int, b: int| 0 <= a < b < self@.len() implies
                        !spec_eq_ignore_case(self@[a].0, self@[b].0) by {
                        lemma_ci_symm_trans(pre, i as int, name@, a, b);
                    }
                }
            },
            None => {
                self.entries.push((String::from_str(name), String::from_str(value)));
                proof {
                    assert(self@ =~= pre.push((name@, value@)));
                    lemma_lookup_push(pre, name@, value@);
                }
            },
        }
    }

    /// The value stored under `name`, up to case, if any.
    pub fn get(&self, name: &str) -> (r: Option<&String>)
        ensures
            r matches Some(v) ==> self.spec_get(name@) == Some(v@),
            r is None ==> self.spec_get(name@) is None,
    {
        match self.position_of(name) {
            Some(i) => {
                proof {
                    lemma_lookup_at(self@, name@, i as int);
                }
                Some(&self.entries[i].1)
            },
            None => {
                proof {
                    lemma_lookup_none(self@, name@);
                }
                None
            },
        }
    }

    pub fn contains(&self, name: &str) -> (r: bool)
        ensures
            r == (self.spec_get(name@) is Some),
    {
        self.get(name).is_some()
    }

    /// An order-preserving copy, so that a retry attempt can re-derive its
    /// headers without touching the original's.
    pub fn duplicate(&self) -> (r: HeaderMap)
        ensures
            r@ == self@,
            self.wf() ==> r.wf(),
    {
        let len = self.entries.len();
        let mut entries: Vec<(String, String)> = Vec::new();
        let mut i: usize = 0;
        while i < len
            invariant
                len == self.entries@.len(),
                i <= len,
                entries@.len() == i,
                forall|j: int|
                    0 <= j < i ==> #[trigger] entries@[j].0@ == self.entries@[j].0@
                        && entries@[j].1@ == self.entries@[j].1@,
            decreases len - i,
        {
            let e = &self.entries[i];
            entries.push((String::from_str(e.0.as_str()), String::from_str(e.1.as_str())));
            i += 1;
        }
        let r = HeaderMap { entries };
        proof {
            assert(r@ =~= self@);
        }
        r
    }
}

proof fn lemma_lookup_update(s: Seq<(Seq<char>, Seq<char>)>, i: int, name: Seq<char>, value: Seq<
    char,
>)
    requires
        0 <= i < s.len(),
        spec_eq_ignore_case(s[i].0, name),
        forall|j: int| 0 <= j < i ==> !spec_eq_ignore_case(s[j].0, name),
    ensures
        forall|q: Seq<char>|
            spec_eq_ignore_case(q, name) ==> #[trigger] spec_lookup(
                s.update(i, (name, value)),
                q,
            ) == Some(value),
    decreases i,
{
    assert forall|q: Seq<char>| spec_eq_ignore_case(q, name) implies #[trigger] spec_lookup(
        s.update(i, (name, value)),
        q,
    ) == Some(value) by {
        lemma_lookup_update_hit(s, i, name, value, q);
    }
}

proof fn lemma_lookup_update_hit(
    s: Seq<(Seq<char>, Seq<char>)>,
    i: int,
    name: Seq<char>,
    value: Seq<char>,
    q: Seq<char>,
)
    requires
        0 <= i < s.len(),
        forall|j: int| 0 <= j < i ==> !spec_eq_ignore_case(s[j].0, name),
        spec_eq_ignore_case(q, name),
    ensures
        spec_lookup(s.update(i, (name, value)), q) == Some(value),
    decreases i,
{
    let t = s.update(i, (name, value));
    lemma_ci_relation(q, name);
    if i == 0 {
        assert(spec_eq_ignore_case(t[0].0, q));
    } else {
        assert(!spec_eq_ignore_case(s[0].0, name));
        assert(!spec_eq_ignore_case(t[0].0, q)) by {
            lemma_ci_not(s[0].0, name, q);
        }
        assert(t.drop_first() =~= s.drop_first().update(i - 1, (name, value)));
        lemma_lookup_update_hit(s.drop_first(), i - 1, name, value, q);
    }
}

proof fn lemma_lookup_update_other(
    s: Seq<(Seq<char>, Seq<char>)>,
    i: int,
    name: Seq<char>,
    value: Seq<char>,
    q: Seq<char>,
)
    requires
        0 <= i < s.len(),
        spec_eq_ignore_case(s[i].0, name),
        !spec_eq_ignore_case(q, name),
    ensures
        spec_lookup(s.update(i, (name, value)), q) == spec_lookup(s, q),
    decreases i,
{
    let t = s.update(i, (name, value));
    if i == 0 {
        lemma_ci_relation(s[0].0, name);
        assert(!spec_eq_ignore_case(t[0].0, q)) by {
            lemma_ci_not2(s[0].0, name, q);
        }
        assert(!spec_eq_ignore_case(s[0].0, q)) by {
            lemma_ci_not2(s[0].0, name, q);
        }
        assert(t.drop_first() =~= s.drop_first());
    } else {
        assert(t[0] == s[0]);
        assert(t.drop_first() =~= s.drop_first().update(i - 1, (name, value)));
        lemma_lookup_update_other(s.drop_first(), i - 1, name, value, q);
    }
}

proof fn lemma_lookup_push(s: Seq<(Seq<char>, Seq<char>)>, name: Seq<char>, value: Seq<char>)
    requires
        forall|j: int| 0 <= j < s.len() ==> !spec_eq_ignore_case(s[j].0, name),
    ensures
        forall|q: Seq<char>|
            spec_eq_ignore_case(q, name) ==> #[trigger] spec_lookup(s.push((name, value)), q)
                == Some(value),
        forall|q: Seq<char>|
            !spec_eq_ignore_case(q, name) ==> #[trigger] spec_lookup(s.push((name, value)), q)
                == spec_lookup(s, q),
    decreases s.len(),
{
    let t = s.push((name, value));
    if s.len() == 0 {
        assert(t.len() == 1);
        assert(t[0] == (name, value));
        assert forall|q: Seq<char>| spec_eq_ignore_case(q, name) implies #[trigger] spec_lookup(
            t,
            q,
        ) == Some(value) by {
            lemma_ci_relation(q, name);
            assert(spec_eq_ignore_case(t[0].0, q));
        }
        assert forall|q: Seq<char>| !spec_eq_ignore_case(q, name) implies #[trigger] spec_lookup(
            t,
            q,
        ) == spec_lookup(s, q) by {
            assert(!spec_eq_ignore_case(t[0].0, q)) by {
                if spec_eq_ignore_case(name, q) {
                    assert(spec_eq_ignore_case(q, name));
                }
            }
            assert(t.drop_first() =~= s);
            assert(spec_lookup(t, q) == spec_lookup(t.drop_first(), q));
        }
    } else {
        lemma_lookup_push(s.drop_first(), name, value);
        assert(t.drop_first() =~= s.drop_first().push((name, value)));
        assert forall|q: Seq<char>| spec_eq_ignore_case(q, name) implies #[trigger] spec_lookup(
            t,
            q,
        ) == Some(value) by {
            lemma_ci_relation(q, name);
            assert(!spec_eq_ignore_case(s[0].0, name));
            lemma_ci_not(s[0].0, name, q);
            assert(spec_lookup(t.drop_first(), q) == Some(value));
        }
        assert forall|q: Seq<char>| !spec_eq_ignore_case(q, name) implies #[trigger] spec_lookup(
            t,
            q,
        ) == spec_lookup(s, q) by {
            assert(spec_lookup(t.drop_first(), q) == spec_lookup(s.drop_first(), q));
        }
    }
}

/// Case-insensitive equality is symmetric and transitive.
proof fn lemma_ci_relation(a: Seq<char>, b: Seq<char>)
    requires
        spec_eq_ignore_case(a, b),
    ensures
        spec_eq_ignore_case(b, a),
{
}

/// If `x` is not ci-equal to `name` and `q` is, then `x` is not ci-equal
/// to `q`.
proof fn lemma_ci_not(x: Seq<char>, name: Seq<char>, q: Seq<char>)
    requires
        !spec_eq_ignore_case(x, name),
        spec_eq_ignore_case(q, name),
    ensures
        !spec_eq_ignore_case(x, q),
{
    if spec_eq_ignore_case(x, q) {
        assert(spec_eq_ignore_case(x, name));
    }
}

/// If `x` is ci-equal to `name` and `q` is not, then `x` is not ci-equal
/// to `q`.
proof fn lemma_ci_not2(x: Seq<char>, name: Seq<char>, q: Seq<char>)
    requires
        spec_eq_ignore_case(x, name),
        !spec_eq_ignore_case(q, name),
    ensures
        !spec_eq_ignore_case(x, q),
{
    if spec_eq_ignore_case(x, q) {
        assert(spec_eq_ignore_case(q, name));
    }
}

proof fn lemma_ci_symm_trans(
    pre: Seq<(Seq<char>, Seq<char>)>,
    i: int,
    name: Seq<char>,
    a: int,
    b: int,
)
    requires
        0 <= i < pre.len(),
        spec_eq_ignore_case(pre[i].0, name),
        forall|x: int, y: int|
            0 <= x < y < pre.len() ==> !spec_eq_ignore_case(pre[x].0, pre[y].0),
        0 <= a < b < pre.len(),
    ensures
        !spec_eq_ignore_case(
            pre.update(i, (name, Seq::<char>::empty()))[a].0,
            pre.update(i, (name, Seq::<char>::empty()))[b].0,
        ),
{
    let t = pre.update(i, (name, Seq::<char>::empty()));
    if a != i && b != i {
        assert(t[a].0 == pre[a].0 && t[b].0 == pre[b].0);
    } else if a == i {
        assert(t[a].0 == name && t[b].0 == pre[b].0);
        if spec_eq_ignore_case(name, pre[b].0) {
            assert(spec_eq_ignore_case(pre[i].0, pre[b].0));
        }
    } else {
        assert(t[a].0 == pre[a].0 && t[b].0 == name);
        if spec_eq_ignore_case(pre[a].0, name) {
            assert(spec_eq_ignore_case(pre[a].0, pre[i].0));
        }
    }
}

/// An empty map holds nothing.
pub proof fn lemma_lookup_empty(name: Seq<char>)
    ensures
        spec_lookup(Seq::<(Seq<char>, Seq<char>)>::empty(), name) is None,
{
}

/// If position `i` is the first ci-match for `name`, lookup returns its
/// value.
proof fn lemma_lookup_at(s: Seq<(Seq<char>, Seq<char>)>, name: Seq<char>, i: int)
    requires
        0 <= i < s.len(),
        spec_eq_ignore_case(s[i].0, name),
        forall|j: int| 0 <= j < i ==> !spec_eq_ignore_case(s[j].0, name),
    ensures
        spec_lookup(s, name) == Some(s[i].1),
    decreases i,
{
    lemma_ci_relation(s[i].0, name);
    if i == 0 {
    } else {
        lemma_lookup_at(s.drop_first(), name, i - 1);
        assert(!spec_eq_ignore_case(s[0].0, name));
        if spec_eq_ignore_case(s[0].0, name) {
        }
    }
}

/// If no position ci-matches `name`, lookup returns nothing.
proof fn lemma_lookup_none(s: Seq<(Seq<char>, Seq<char>)>, name: Seq<char>)
    requires
        forall|j: int| 0 <= j < s.len() ==> !spec_eq_ignore_case(s[j].0, name),
    ensures
        spec_lookup(s, name) is None,
    decreases s.len(),
{
    if s.len() > 0 {
        lemma_lookup_none(s.drop_first(), name);
    }
}

} // verus!
