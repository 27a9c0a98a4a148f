//! The pagination cursor: a lazy, forward-only, non-restartable sequence
//! of pages driven by server-issued continuation tokens.
//!
//! The cursor holds only the next continuation token, never history. The
//! single-page fetch happens outside: the consumer asks the cursor for a
//! `plan` (fetch with this token, or stop), performs the fetch, and hands
//! the result to `record`, which yields it and moves the state machine.
//! A fetch failure is yielded once and the cursor halts; it never retries
//! or skips a page.

use vstd::prelude::*;

use crate::errors::Error;

verus! {

/// A decoded listing page: an opaque payload and the server's
/// continuation token. No token means the sequence is exhausted.
#[derive(Debug)]
pub struct Page {
    pub body: Vec<u8>,
    pub continuation: Option<String>,
}

#[derive(Debug)]
enum CursorState {
    Init,
    HasMore(String),
    Exhausted,
    Failed,
}

/// The cursor's position as the contracts see it.
pub enum CursorPhase {
    Init,
    HasMore(Seq<char>),
    Exhausted,
    Failed,
}

/// What the consumer should do next.
#[derive(Debug)]
pub enum FetchPlan {
    /// The sequence has ended (exhausted or failed); no fetch happens.
    Stop,
    /// Fetch one page, echoing this continuation token when one is held.
    Fetch(Option<String>),
}

#[derive(Debug)]
pub struct PageCursor {
    state: CursorState,
}

/// The phase the cursor reaches after consuming a whole fetch script from
/// its start.
pub open spec fn spec_final_phase(script: Seq<Result<Page, Error>>) -> CursorPhase
    decreases script.len(),
{
    if script.len() == 0 {
        CursorPhase::Init
    } else {
        match script[0] {
            Err(_) => CursorPhase::Failed,
            Ok(p) => match p.continuation {
                None => CursorPhase::Exhausted,
                Some(t) => {
                    if script.len() == 1 {
                        CursorPhase::HasMore(t@)
                    } else {
                        spec_final_phase(script.drop_first())
                    }
                },
            },
        }
    }
}

/// How many fetches a script sustains before the cursor halts: every
/// entry up to and including the first error or token-less page.
pub open spec fn spec_consumed(script: Seq<Result<Page, Error>>) -> nat
    decreases script.len(),
{
    if script.len() == 0 {
        0
    } else {
        match script[0] {
            Err(_) => 1,
            Ok(p) => match p.continuation {
                Some(_) => 1 + spec_consumed(script.drop_first()),
                None => 1,
            },
        }
    }
}

impl PageCursor {
    pub closed spec fn phase(&self) -> CursorPhase {
        match self.state {
            CursorState::Init => CursorPhase::Init,
            CursorState::HasMore(t) => CursorPhase::HasMore(t@),
            CursorState::Exhausted => CursorPhase::Exhausted,
            CursorState::Failed => CursorPhase::Failed,
        }
    }

    /// A cursor may fetch until its first error or token-less page.
    pub open spec fn spec_fetching(&self) -> bool {
        self.phase() is Init || self.phase() is HasMore
    }

    pub fn new() -> (r: PageCursor)
        ensures
            r.phase() == CursorPhase::Init,
    {
        PageCursor { state: CursorState::Init }
    }

    /// What to do next. After exhaustion or failure the plan is `Stop`,
    /// and asking again stays `Stop`: no fetch is ever attempted there.
    pub fn plan(&self) -> (r: FetchPlan)
        ensures
            match self.phase() {
                CursorPhase::Init => r matches FetchPlan::Fetch(t) && t is None,
                CursorPhase::HasMore(tok) => r matches FetchPlan::Fetch(t) && (t matches Some(s)
                    && s@ == tok),
                CursorPhase::Exhausted => r == FetchPlan::Stop,
                CursorPhase::Failed => r == FetchPlan::Stop,
            },
    {
        match &self.state {
            CursorState::Init => FetchPlan::Fetch(None),
            CursorState::HasMore(t) => FetchPlan::Fetch(Some(String::from_str(t.as_str()))),
            CursorState::Exhausted => FetchPlan::Stop,
            CursorState::Failed => FetchPlan::Stop,
        }
    }

    /// Hands the cursor one fetch's result. The result is yielded to the
    /// consumer unchanged; the cursor advances to `HasMore` when the page
    /// carries a token, to `Exhausted` when it does not, and to `Failed`
    /// on an error — after which no further fetch is planned.
    pub fn record(&mut self, result: Result<Page, Error>) -> (y: Result<Page, Error>)
        requires
            old(self).spec_fetching(),
        ensures
            y == result,
            final(self).phase() == match result {
                Err(_) => CursorPhase::Failed,
                Ok(p) => match p.continuation {
                    Some(t) => CursorPhase::HasMore(t@),
                    None => CursorPhase::Exhausted,
                },
            },
    {
        match &result {
            Ok(p) => {
                match &p.continuation {
                    Some(t) => {
                        self.state = CursorState::HasMore(String::from_str(t.as_str()));
                    },
                    None => {
                        self.state = CursorState::Exhausted;
                    },
                }
            },
            Err(_) => {
                self.state = CursorState::Failed;
            },
        }
        result
    }
}

/// The report of a fully consumed cursor: what was yielded, how many
/// fetches happened, and the cursor as it halted.
#[derive(Debug)]
pub struct DrainReport {
    pub yielded: Vec<Result<Page, Error>>,
    pub fetches: usize,
    pub cursor: PageCursor,
}

/// Consumes a cursor against a script of fetch results, one per fetch.
/// Exactly the consumable prefix of the script is fetched and yielded,
/// in order and unchanged, and the cursor halts in the scripted phase.
#[verifier::loop_isolation(false)]
pub fn drain_scripted(script: Vec<Result<Page, Error>>) -> (r: DrainReport)
    ensures
        r.fetches == spec_consumed(script@),
        r.yielded@ == script@.take(spec_consumed(script@) as int),
        r.cursor.phase() == spec_final_phase(script@),
{
    let ghost script0 = script@;
    let mut remaining = script;
    let mut cursor = PageCursor::new();
    let mut yielded: Vec<Result<Page, Error>> = Vec::new();
    let mut i: usize = 0;
    let total = remaining.len();
    proof {
        assert(script0.skip(0) =~= script0);
        assert(script0.take(0) =~= Seq::<Result<Page, Error>>::empty());
    }
    loop
        invariant
            i <= script0.len(),
            i + remaining@.len() == total,
            remaining@ =~= script0.skip(i as int),
            yielded@ =~= script0.take(i as int),
            cursor.spec_fetching(),
            spec_consumed(script0) == i + spec_consumed(script0.skip(i as int)),
            remaining@.len() == 0 ==> spec_final_phase(script0) == cursor.phase(),
            remaining@.len() > 0 ==> spec_final_phase(script0) == spec_final_phase(
                script0.skip(i as int),
            ),
        decreases remaining@.len(),
    {
        if remaining.len() == 0 {
            break;
        }
        proof {
            assert(remaining@[0] == script0[i as int]);
        }
        let item = remaining.remove(0);
        let ghost suffix = script0.skip(i as int);
        let y = cursor.record(item);
        yielded.push(y);
        i += 1;
        proof {
            assert(suffix[0] == script0[i - 1]);
            assert(suffix.drop_first() =~= script0.skip(i as int));
            assert(script0.take(i as int) =~= script0.take(i - 1).push(script0[i - 1]));
        }
        match cursor.plan() {
            FetchPlan::Stop => {
                proof {
                    assert(spec_consumed(suffix) == 1);
                    assert(spec_final_phase(suffix) == cursor.phase());
                }
                break;
            },
            FetchPlan::Fetch(_) => {
                proof {
                    assert(spec_consumed(suffix) == 1 + spec_consumed(suffix.drop_first()));
                    if suffix.len() > 1 {
                        assert(spec_final_phase(suffix) == spec_final_phase(suffix.drop_first()));
                    } else {
                        assert(spec_final_phase(suffix) == cursor.phase());
                    }
                }
            },
        }
    }
    DrainReport { yielded, fetches: i, cursor }
}

/// Three pages, the first two with continuation tokens and the third
/// without: the cursor fetches and yields exactly three pages, halts
/// exhausted — so a later ask plans no fetch — whatever else the script
/// might have held.
pub proof fn lemma_three_pages_then_done(script: Seq<Result<Page, Error>>)
    requires
        script.len() >= 3,
        script[0] matches Ok(p) && p.continuation is Some,
        script[1] matches Ok(p) && p.continuation is Some,
        script[2] matches Ok(p) && p.continuation is None,
    ensures
        spec_consumed(script) == 3,
        spec_final_phase(script) == CursorPhase::Exhausted,
{
    let s1 = script.drop_first();
    let s2 = s1.drop_first();
    assert(s1[0] == script[1]);
    assert(s2[0] == script[2]);
    assert(spec_consumed(s2) == 1);
    assert(spec_consumed(s1) == 2);
    assert(spec_final_phase(s2) == CursorPhase::Exhausted);
    assert(spec_final_phase(s1) == CursorPhase::Exhausted);
}

/// A failing second fetch: the consumer receives the first page and then
/// exactly one error, and the cursor halts failed — no further fetch is
/// attempted on it.
pub proof fn lemma_second_fetch_fails(script: Seq<Result<Page, Error>>)
    requires
        script.len() >= 2,
        script[0] matches Ok(p) && p.continuation is Some,
        script[1] is Err,
    ensures
        spec_consumed(script) == 2,
        spec_final_phase(script) == CursorPhase::Failed,
{
    let s1 = script.drop_first();
    assert(s1[0] == script[1]);
    assert(spec_consumed(s1) == 1);
    assert(spec_final_phase(s1) == CursorPhase::Failed);
}

} // verus!
