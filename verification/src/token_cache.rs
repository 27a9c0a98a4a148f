//! The token cache: one credential's tokens, keyed by scope set, refreshed
//! before expiry and never refreshed twice concurrently for one key.
//!
//! The cache is the decision core of the single-flight discipline; the
//! refresh itself (a credential round-trip) happens outside. A caller
//! `poll`s: either a cached token still valid beyond the safety margin
//! comes back at once, or the caller is elected to refresh (the entry is
//! marked in flight), or a refresh is already in flight and the caller
//! awaits its outcome. The elected caller reports back through
//! `complete_refresh`, and every waiter reads the same outcome through
//! `await_outcome`. A failed refresh is handed to all waiters and clears
//! the in-flight mark, so the next poll refreshes cleanly.

use vstd::prelude::*;

use crate::strutil::str_eq;

verus! {

/// A bearer token: an opaque secret, its absolute expiry instant in
/// seconds since the epoch, and the scope set it was minted for.
#[derive(Debug)]
pub struct Token {
    pub secret: String,
    pub expires_at: i64,
    pub scope_key: String,
}

impl View for Token {
    type V = (Seq<char>, int, Seq<char>);

    open spec fn view(&self) -> (Seq<char>, int, Seq<char>) {
        (self.secret@, self.expires_at as int, self.scope_key@)
    }
}

impl Token {
    pub fn duplicate(&self) -> (r: Token)
        ensures
            r@ == self@,
    {
        Token {
            secret: String::from_str(self.secret.as_str()),
            expires_at: self.expires_at,
            scope_key: String::from_str(self.scope_key.as_str()),
        }
    }
}

/// What a finished refresh produced: a token, or the credential's
/// rejection.
#[derive(Debug)]
pub enum RefreshOutcome {
    Available(Token),
    Failed(String),
}

pub open spec fn spec_outcome_view(o: RefreshOutcome) -> Result<(Seq<char>, int, Seq<char>), Seq<
    char,
>> {
    match o {
        RefreshOutcome::Available(t) => Ok(t@),
        RefreshOutcome::Failed(m) => Err(m@),
    }
}

impl RefreshOutcome {
    pub fn duplicate(&self) -> (r: RefreshOutcome)
        ensures
            spec_outcome_view(r) == spec_outcome_view(*self),
    {
        match self {
            RefreshOutcome::Available(t) => RefreshOutcome::Available(t.duplicate()),
            RefreshOutcome::Failed(m) => RefreshOutcome::Failed(String::from_str(m.as_str())),
        }
    }
}

/// What a poll tells the caller to do.
#[derive(Debug)]
pub enum PollOutcome {
    /// A cached token valid beyond the safety margin; no refresh happens.
    Fresh(Token),
    /// The caller is elected to perform the one refresh for this key.
    MustRefresh,
    /// A refresh for this key is already in flight; await its outcome.
    AwaitInFlight,
}

#[derive(Debug)]
struct Entry {
    key: String,
    token: Option<Token>,
    inflight: bool,
    last: Option<RefreshOutcome>,
}

/// A cache entry as the contracts see it: the cached token's view, the
/// in-flight mark, and the outcome of the last finished refresh.
pub struct EntryModel {
    pub token: Option<(Seq<char>, int, Seq<char>)>,
    pub inflight: bool,
    pub last: Option<Result<(Seq<char>, int, Seq<char>), Seq<char>>>,
}

spec fn model_of(e: Entry) -> EntryModel {
    EntryModel {
        token: match e.token {
            Some(t) => Some(t@),
            None => None,
        },
        inflight: e.inflight,
        last: match e.last {
            Some(o) => Some(spec_outcome_view(o)),
            None => None,
        },
    }
}

spec fn spec_find(s: Seq<Entry>, key: Seq<char>) -> Option<Entry>
    decreases s.len(),
{
    if s.len() == 0 {
        None
    } else if s[0].key@ == key {
        Some(s[0])
    } else {
        spec_find(s.drop_first(), key)
    }
}

/// Tokens for different scope sets are cached independently.
#[derive(Debug)]
pub struct TokenCache {
    entries: Vec<Entry>,
    margin_secs: i64,
}

impl TokenCache {
    /// The configured safety margin, in seconds.
    pub closed spec fn spec_margin(&self) -> int {
        self.margin_secs as int
    }

    /// The entry for a scope key, if the key has ever been seen.
    pub closed spec fn spec_entry(&self, key: Seq<char>) -> Option<EntryModel> {
        match spec_find(self.entries@, key) {
            Some(e) => Some(model_of(e)),
            None => None,
        }
    }

    pub closed spec fn wf(&self) -> bool {
        &&& self.margin_secs >= 0
        &&& forall|i: int, j: int|
            0 <= i < j < self.entries@.len() ==> (#[trigger] self.entries@[i]).key@ != (
            #[trigger] self.entries@[j]).key@
    }

    /// A token for `key` is cached and valid beyond the margin at `now`.
    pub open spec fn spec_has_valid(&self, key: Seq<char>, now: int) -> bool {
        match self.spec_entry(key) {
            Some(e) => match e.token {
                Some(t) => t.1 > now + self.spec_margin(),
                None => false,
            },
            None => false,
        }
    }

    /// A refresh for `key` is in flight.
    pub open spec fn spec_inflight(&self, key: Seq<char>) -> bool {
        match self.spec_entry(key) {
            Some(e) => e.inflight,
            None => false,
        }
    }

    pub fn new(margin_secs: i64) -> (r: TokenCache)
        requires
            margin_secs >= 0,
        ensures
            r.wf(),
            r.spec_margin() == margin_secs,
            forall|k: Seq<char>| #[trigger] r.spec_entry(k) is None,
    {
        TokenCache { entries: Vec::new(), margin_secs }
    }

    fn position_of(&self, key: &str) -> (r: Option<usize>)
        ensures
            r matches Some(i) ==> i < self.entries@.len() && self.entries@[i as int].key@ == key@
                && forall|j: int| 0 <= j < i ==> (#[trigger] self.entries@[j]).key@ != key@,
            r is None ==> forall|j: int|
                0 <= j < self.entries@.len() ==> (#[trigger] self.entries@[j]).key@ != key@,
    {
        let len = self.entries.len();
        let mut i: usize = 0;
        while i < len
            invariant
                len == self.entries@.len(),
                i <= len,
                forall|j: int| 0 <= j < i ==> (#[trigger] self.entries@[j]).key@ != key@,
            decreases len - i,
        {
            if str_eq(self.entries[i].key.as_str(), key) {
                return Some(i);
            }
            i += 1;
        }
        None
    }

    fn entry_is_valid(e: &Entry, now: i64, margin: i64) -> (r: bool)
        requires
            now >= 0,
            margin >= 0,
        ensures
            r == match model_of(*e).token {
                Some(t) => t.1 > now + margin,
                None => false,
            },
    {
        match &e.token {
            Some(t) => {
                match now.checked_add(margin) {
                    Some(lim) => t.expires_at > lim,
                    None => false,
                }
            },
            None => false,
        }
    }

    /// The fast path: the cached token for `key`, when one is valid
    /// beyond the margin at `now`. Read-only: no refresh is started.
    pub fn get_token(&self, key: &str, now: i64) -> (r: Option<Token>)
        requires
            now >= 0,
            self.wf(),
        ensures
            r matches Some(t) ==> self.spec_has_valid(key@, now as int) && Some(t@)
                == self.spec_entry(key@).unwrap().token,
            r is None ==> !self.spec_has_valid(key@, now as int),
    {
        match self.position_of(key) {
            Some(i) => {
                proof {
                    lemma_find_at(self.entries@, key@, i as int);
                }
                let e = &self.entries[i];
                if Self::entry_is_valid(e, now, self.margin_secs) {
                    match &e.token {
                        Some(t) => Some(t.duplicate()),
                        None => None,
                    }
                } else {
                    None
                }
            },
            None => {
                proof {
                    lemma_find_none(self.entries@, key@);
                }
                None
            },
        }
    }
}

/// What one poll does: a valid cached token comes back with the cache
/// untouched; an in-flight refresh turns the caller into a waiter, cache
/// untouched; otherwise the caller is elected and only this key's entry
/// gains the in-flight mark.
pub open spec fn spec_poll_rel(
    pre: TokenCache,
    key: Seq<char>,
    now: int,
    post: TokenCache,
    out: PollOutcome,
) -> bool {
    if pre.spec_has_valid(key, now) {
        &&& out matches PollOutcome::Fresh(t) && Some(t@) == pre.spec_entry(key).unwrap().token
        &&& post == pre
    } else if pre.spec_inflight(key) {
        &&& out == PollOutcome::AwaitInFlight
        &&& post == pre
    } else {
        &&& out == PollOutcome::MustRefresh
        &&& post.spec_margin() == pre.spec_margin()
        &&& post.spec_entry(key) == Some(
            EntryModel {
                token: match pre.spec_entry(key) {
                    Some(e) => e.token,
                    None => None,
                },
                inflight: true,
                last: match pre.spec_entry(key) {
                    Some(e) => e.last,
                    None => None,
                },
            },
        )
        &&& forall|k2: Seq<char>| k2 != key ==> post.spec_entry(k2) == pre.spec_entry(k2)
    }
}

impl TokenCache {
    /// One caller's arrival for `key` at `now`.
    pub fn poll(&mut self, key: &str, now: i64) -> (r: PollOutcome)
        requires
            now >= 0,
            old(self).wf(),
        ensures
            final(self).wf(),
            spec_poll_rel(*old(self), key@, now as int, *final(self), r),
    {
        let margin = self.margin_secs;
        match self.position_of(key) {
            Some(i) => {
                proof {
                    lemma_find_at(self.entries@, key@, i as int);
                }
                let fresh: Option<Token> = match &self.entries[i].token {
                    Some(t) => {
                        match now.checked_add(margin) {
                            Some(lim) => {
                                if t.expires_at > lim {
                                    Some(t.duplicate())
                                } else {
                                    None
                                }
                            },
                            None => None,
                        }
                    },
                    None => None,
                };
                match fresh {
                    Some(t) => PollOutcome::Fresh(t),
                    None => {
                        if self.entries[i].inflight {
                            PollOutcome::AwaitInFlight
                        } else {
                            let ghost pre = self.entries@;
                            let mut e = self.entries.remove(i);
                            e.inflight = true;
                            self.entries.insert(i, e);
                            proof {
                                assert(self.entries@ =~= pre.update(i as int, e));
                                lemma_find_update(pre, i as int, e, key@);
                            }
                            PollOutcome::MustRefresh
                        }
                    },
                }
            },
            None => {
                proof {
                    lemma_find_none(self.entries@, key@);
                }
                let ghost pre = self.entries@;
                let e = Entry {
                    key: String::from_str(key),
                    token: None,
                    inflight: true,
                    last: None,
                };
                self.entries.push(e);
                proof {
                    lemma_find_push(pre, e, key@);
                }
                PollOutcome::MustRefresh
            },
        }
    }

    /// The elected caller reports the one refresh's outcome. The token is
    /// replaced on success and kept on failure, the in-flight mark is
    /// cleared either way — a failure does not poison the next poll — and
    /// the outcome is stored for every waiter to read.
    pub fn complete_refresh(&mut self, key: &str, outcome: RefreshOutcome)
        requires
            old(self).wf(),
            old(self).spec_inflight(key@),
        ensures
            final(self).wf(),
            final(self).spec_margin() == old(self).spec_margin(),
            final(self).spec_entry(key@) == Some(
                EntryModel {
                    token: match outcome {
                        RefreshOutcome::Available(t) => Some(t@),
                        RefreshOutcome::Failed(_) => old(self).spec_entry(key@).unwrap().token,
                    },
                    inflight: false,
                    last: Some(spec_outcome_view(outcome)),
                },
            ),
            forall|k2: Seq<char>| k2 != key@ ==> final(self).spec_entry(k2) == old(self).spec_entry(
                k2,
            ),
    {
        match self.position_of(key) {
            Some(i) => {
                proof {
                    lemma_find_at(self.entries@, key@, i as int);
                }
                let ghost pre = self.entries@;
                let mut e = self.entries.remove(i);
                match outcome {
                    RefreshOutcome::Available(t) => {
                        e.token = Some(t.duplicate());
                        e.last = Some(RefreshOutcome::Available(t));
                    },
                    RefreshOutcome::Failed(m) => {
                        e.last = Some(RefreshOutcome::Failed(m));
                    },
                }
                e.inflight = false;
                self.entries.insert(i, e);
                proof {
                    assert(self.entries@ =~= pre.update(i as int, e));
                    lemma_find_update(pre, i as int, e, key@);
                }
            },
            None => {
                proof {
                    lemma_find_none(self.entries@, key@);
                    assert(false);
                }
            },
        }
    }

    /// What the last finished refresh for `key` produced. Every waiter
    /// reads the same stored outcome.
    pub fn await_outcome(&self, key: &str) -> (r: Option<RefreshOutcome>)
        ensures
            r matches Some(o) ==> self.spec_entry(key@) matches Some(e) && e.last == Some(
                spec_outcome_view(o),
            ),
            r is None ==> match self.spec_entry(key@) {
                Some(e) => e.last is None,
                None => true,
            },
    {
        match self.position_of(key) {
            Some(i) => {
                proof {
                    lemma_find_at(self.entries@, key@, i as int);
                }
                match &self.entries[i].last {
                    Some(o) => Some(o.duplicate()),
                    None => None,
                }
            },
            None => {
                proof {
                    lemma_find_none(self.entries@, key@);
                }
                None
            },
        }
    }

    /// Drops the cached token for `key` (the auth policy's one forced
    /// invalidation after a credential challenge); the in-flight mark and
    /// the stored outcome stay.
    pub fn invalidate(&mut self, key: &str)
        requires
            old(self).wf(),
        ensures
            final(self).wf(),
            final(self).spec_margin() == old(self).spec_margin(),
            match old(self).spec_entry(key@) {
                Some(e) => final(self).spec_entry(key@) == Some(
                    EntryModel { token: None, inflight: e.inflight, last: e.last },
                ),
                None => final(self).spec_entry(key@) is None,
            },
            forall|k2: Seq<char>| k2 != key@ ==> final(self).spec_entry(k2) == old(self).spec_entry(
                k2,
            ),
    {
        match self.position_of(key) {
            Some(i) => {
                proof {
                    lemma_find_at(self.entries@, key@, i as int);
                }
                let ghost pre = self.entries@;
                let mut e = self.entries.remove(i);
                e.token = None;
                self.entries.insert(i, e);
                proof {
                    assert(self.entries@ =~= pre.update(i as int, e));
                    lemma_find_update(pre, i as int, e, key@);
                }
            },
            None => {
                proof {
                    lemma_find_none(self.entries@, key@);
                }
            },
        }
    }
}

/// Single-flight: from a state with no valid token and no refresh in
/// flight for `key`, however many callers poll before the refresh
/// completes, the first is elected and every later one awaits; no second
/// refresh is started, and the cache does not change after the election.
pub proof fn lemma_single_flight(
    states: Seq<TokenCache>,
    outs: Seq<PollOutcome>,
    key: Seq<char>,
    now: int,
)
    requires
        states.len() == outs.len() + 1,
        outs.len() >= 1,
        !states[0].spec_has_valid(key, now),
        !states[0].spec_inflight(key),
        forall|i: int|
            0 <= i < outs.len() ==> spec_poll_rel(
                #[trigger] states[i],
                key,
                now,
                states[i + 1],
                outs[i],
            ),
    ensures
        outs[0] == PollOutcome::MustRefresh,
        forall|i: int| 1 <= i < outs.len() ==> #[trigger] outs[i] == PollOutcome::AwaitInFlight,
        forall|i: int| 1 <= i < states.len() ==> #[trigger] states[i] == states[1],
{
    assert(spec_poll_rel(states[0], key, now, states[1], outs[0]));
    assert forall|i: int| 1 <= i < states.len() implies #[trigger] states[i] == states[1] by {
        lemma_single_flight_aux(states, outs, key, now, i);
    }
    assert forall|i: int| 1 <= i < outs.len() implies #[trigger] outs[i] == PollOutcome::AwaitInFlight by {
        lemma_single_flight_aux(states, outs, key, now, i);
        assert(spec_poll_rel(states[i], key, now, states[i + 1], outs[i]));
        lemma_elected_state(states[0], states[1], key, now);
    }
}

/// After the election the entry is in flight and the token is still not
/// valid, so a poll must take the awaiting branch.
proof fn lemma_elected_state(s0: TokenCache, s1: TokenCache, key: Seq<char>, now: int)
    requires
        !s0.spec_has_valid(key, now),
        !s0.spec_inflight(key),
        s1.spec_margin() == s0.spec_margin(),
        s1.spec_entry(key) == Some(
            EntryModel {
                token: match s0.spec_entry(key) {
                    Some(e) => e.token,
                    None => None,
                },
                inflight: true,
                last: match s0.spec_entry(key) {
                    Some(e) => e.last,
                    None => None,
                },
            },
        ),
    ensures
        s1.spec_inflight(key),
        !s1.spec_has_valid(key, now),
{
}

proof fn lemma_single_flight_aux(
    states: Seq<TokenCache>,
    outs: Seq<PollOutcome>,
    key: Seq<char>,
    now: int,
    i: int,
)
    requires
        states.len() == outs.len() + 1,
        outs.len() >= 1,
        !states[0].spec_has_valid(key, now),
        !states[0].spec_inflight(key),
        forall|j: int|
            0 <= j < outs.len() ==> spec_poll_rel(
                #[trigger] states[j],
                key,
                now,
                states[j + 1],
                outs[j],
            ),
        1 <= i < states.len(),
    ensures
        states[i] == states[1],
    decreases i,
{
    if i > 1 {
        lemma_single_flight_aux(states, outs, key, now, i - 1);
        assert(spec_poll_rel(states[i - 1], key, now, states[i], outs[i - 1]));
        lemma_elected_state(states[0], states[1], key, now);
    }
}

/// If position `i` is the first match for `key`, the find returns it.
proof fn lemma_find_at(s: Seq<Entry>, key: Seq<char>, i: int)
    requires
        0 <= i < s.len(),
        s[i].key@ == key,
        forall|j: int| 0 <= j < i ==> (#[trigger] s[j]).key@ != key,
    ensures
        spec_find(s, key) == Some(s[i]),
    decreases i,
{
    if i > 0 {
        lemma_find_at(s.drop_first(), key, i - 1);
    }
}

/// Replacing the first match for `key` with an entry under the same key
/// changes the find for `key` to the new entry and no other find.
proof fn lemma_find_update(s: Seq<Entry>, i: int, e: Entry, key: Seq<char>)
    requires
        0 <= i < s.len(),
        s[i].key@ == key,
        e.key@ == key,
        forall|j: int| 0 <= j < i ==> (#[trigger] s[j]).key@ != key,
    ensures
        spec_find(s.update(i, e), key) == Some(e),
        forall|k2: Seq<char>| k2 != key ==> spec_find(s.update(i, e), k2) == spec_find(s, k2),
    decreases i,
{
    let t = s.update(i, e);
    if i == 0 {
        assert(t[0] == e);
        assert forall|k2: Seq<char>| k2 != key implies spec_find(t, k2) == spec_find(s, k2) by {
            assert(t.drop_first() =~= s.drop_first());
            assert(spec_find(t, k2) == spec_find(t.drop_first(), k2));
            assert(spec_find(s, k2) == spec_find(s.drop_first(), k2));
        }
    } else {
        assert(t[0] == s[0]);
        assert(t.drop_first() =~= s.drop_first().update(i - 1, e));
        lemma_find_update(s.drop_first(), i - 1, e, key);
        assert forall|k2: Seq<char>| k2 != key implies spec_find(t, k2) == spec_find(s, k2) by {
            if s[0].key@ == k2 {
                assert(spec_find(t, k2) == Some(t[0]));
                assert(spec_find(s, k2) == Some(s[0]));
            } else {
                assert(spec_find(t, k2) == spec_find(t.drop_first(), k2));
                assert(spec_find(s, k2) == spec_find(s.drop_first(), k2));
            }
        }
    }
}

/// Appending an entry under an unseen key makes the find for that key
/// return it and changes no other find.
proof fn lemma_find_push(s: Seq<Entry>, e: Entry, key: Seq<char>)
    requires
        e.key@ == key,
        forall|j: int| 0 <= j < s.len() ==> (#[trigger] s[j]).key@ != key,
    ensures
        spec_find(s.push(e), key) == Some(e),
        forall|k2: Seq<char>| k2 != key ==> spec_find(s.push(e), k2) == spec_find(s, k2),
    decreases s.len(),
{
    let t = s.push(e);
    if s.len() == 0 {
        assert(t[0] == e);
        assert forall|k2: Seq<char>| k2 != key implies spec_find(t, k2) == spec_find(s, k2) by {
            assert(t.drop_first() =~= s);
            assert(spec_find(t, k2) == spec_find(t.drop_first(), k2));
        }
    } else {
        assert(t[0] == s[0]);
        assert(t.drop_first() =~= s.drop_first().push(e));
        lemma_find_push(s.drop_first(), e, key);
        assert forall|k2: Seq<char>| k2 != key implies spec_find(t, k2) == spec_find(s, k2) by {
            if s[0].key@ == k2 {
                assert(spec_find(t, k2) == Some(t[0]));
                assert(spec_find(s, k2) == Some(s[0]));
            } else {
                assert(spec_find(t, k2) == spec_find(t.drop_first(), k2));
                assert(spec_find(s, k2) == spec_find(s.drop_first(), k2));
            }
        }
    }
}

/// If no position matches `key`, the find returns nothing.
proof fn lemma_find_none(s: Seq<Entry>, key: Seq<char>)
    requires
        forall|j: int| 0 <= j < s.len() ==> (#[trigger] s[j]).key@ != key,
    ensures
        spec_find(s, key) is None,
    decreases s.len(),
{
    if s.len() > 0 {
        lemma_find_none(s.drop_first(), key);
    }
}

} // verus!
