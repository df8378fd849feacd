use vstd::prelude::*;
use crate::errors::ApiError;

verus! {

/// Length of one admission window, in milliseconds.
pub const WINDOW_MS: u64 = 60_000;

/// Most requests admitted per identity within one window.
pub const MAX_REQUESTS: u32 = 10;

/// The admission record of one client identity.
#[derive(Clone, Copy, Debug, PartialEq, Eq, Structural)]
pub struct WindowState {
    /// When the current window opened, in milliseconds.
    pub window_start: u64,
    /// Requests admitted in the current window.
    pub count: u32,
}

/// Time passed since `start`; a clock that went backwards counts as none.
pub open spec fn elapsed(start: u64, now: u64) -> int {
    if now >= start {
        now - start
    } else {
        0
    }
}

/// One admission decision over the table of all identities: the new table and
/// whether the request is admitted.
pub open spec fn admit_spec(m: Map<Seq<char>, WindowState>, id: Seq<char>, now: u64) -> (Map<
    Seq<char>,
    WindowState,
>, bool) {
    if !m.contains_key(id) || elapsed(m[id].window_start, now) > WINDOW_MS {
        (m.insert(id, WindowState { window_start: now, count: 1 }), true)
    } else if m[id].count < MAX_REQUESTS {
        (m.insert(id, WindowState { window_start: m[id].window_start, count: (m[id].count + 1) as u32 }), true)
    } else {
        (m, false)
    }
}

/// The table after a run of requests from one identity at the given times, in
/// arrival order, and whether each request was admitted.
pub open spec fn admit_run(m: Map<Seq<char>, WindowState>, id: Seq<char>, times: Seq<u64>) -> (Map<
    Seq<char>,
    WindowState,
>, Seq<bool>)
    decreases times.len(),
{
    if times.len() == 0 {
        (m, Seq::empty())
    } else {
        let prev = admit_run(m, id, times.drop_last());
        let step = admit_spec(prev.0, id, times.last());
        (step.0, prev.1.push(step.1))
    }
}

/// The smaller of two counts.
pub open spec fn min_count(a: nat, b: nat) -> nat {
    if a <= b {
        a
    } else {
        b
    }
}

/// Once an identity has been admitted the ceiling's worth of requests in its
/// current window, a request in that same window is refused and changes nothing.
pub proof fn lemma_ceiling_refuses(m: Map<Seq<char>, WindowState>, id: Seq<char>, now: u64)
    requires
        m.contains_key(id),
        m[id].count == MAX_REQUESTS,
        elapsed(m[id].window_start, now) <= WINDOW_MS,
    ensures
        admit_spec(m, id, now) == (m, false),
{
}

/// A request that comes after the identity's window has run out is admitted and
/// opens a new window with a count of one, whatever the count was.
pub proof fn lemma_window_rollover(m: Map<Seq<char>, WindowState>, id: Seq<char>, now: u64)
    requires
        m.contains_key(id),
        elapsed(m[id].window_start, now) > WINDOW_MS,
    ensures
        admit_spec(m, id, now) == (m.insert(id, WindowState { window_start: now, count: 1 }), true),
{
}

/// After a refusal, a request past the end of the window is admitted and the
/// count starts again at one.
pub proof fn lemma_reset_after_refusal(
    m: Map<Seq<char>, WindowState>,
    id: Seq<char>,
    refused_at: u64,
    later: u64,
)
    requires
        !admit_spec(m, id, refused_at).1,
        m.contains_key(id) ==> elapsed(m[id].window_start, later) > WINDOW_MS,
    ensures
        ({
            let after = admit_spec(admit_spec(m, id, refused_at).0, id, later);
            &&& after.1
            &&& after.0.contains_key(id)
            &&& after.0[id] == WindowState { window_start: later, count: 1 }
        }),
{
}

/// Requests from a fresh identity whose times all lie within one window of the
/// first request: exactly the first `MAX_REQUESTS` are admitted and every later
/// one is refused, whatever order the times come in.
pub proof fn lemma_burst_exact(m: Map<Seq<char>, WindowState>, id: Seq<char>, times: Seq<u64>)
    requires
        !m.contains_key(id),
        times.len() > 0,
        forall|i: int| 0 <= i < times.len() ==> #[trigger] times[i] <= times[0] + WINDOW_MS,
    ensures
        ({
            let run = admit_run(m, id, times);
            &&& run.1.len() == times.len()
            &&& forall|i: int| 0 <= i < times.len() ==> run.1[i] == (i < MAX_REQUESTS)
            &&& run.0.contains_key(id)
            &&& run.0[id] == WindowState {
                window_start: times[0],
                count: min_count(times.len(), MAX_REQUESTS as nat) as u32,
            }
        }),
    decreases times.len(),
{
    if times.len() > 1 {
        let pre = times.drop_last();
        assert(pre[0] == times[0]);
        lemma_burst_exact(m, id, pre);
        let prev = admit_run(m, id, pre);
        assert(elapsed(prev.0[id].window_start, times.last()) <= WINDOW_MS);
        let run = admit_run(m, id, times);
        assert forall|i: int| 0 <= i < times.len() implies run.1[i] == (i < MAX_REQUESTS) by {
            if i < times.len() - 1 {
                assert(run.1[i] == prev.1[i]);
            }
        }
    } else {
        let run = admit_run(m, id, times);
        assert(admit_run(m, id, times.drop_last()).1 =~= Seq::<bool>::empty());
        assert(run.1[0]);
    }
}

/// However many requests one identity makes, the record of any other identity is
/// untouched, and so is the decision on its next request.
pub proof fn lemma_isolation(
    m: Map<Seq<char>, WindowState>,
    a: Seq<char>,
    b: Seq<char>,
    times: Seq<u64>,
    now: u64,
)
    requires
        a != b,
    ensures
        admit_run(m, a, times).0.contains_key(b) == m.contains_key(b),
        m.contains_key(b) ==> admit_run(m, a, times).0[b] == m[b],
        admit_spec(admit_run(m, a, times).0, b, now).1 == admit_spec(m, b, now).1,
    decreases times.len(),
{
    if times.len() > 0 {
        lemma_isolation(m, a, b, times.drop_last(), now);
    }
}

struct Entry {
    identity: String,
    state: WindowState,
}

/// A fixed-window request counter per client identity.
pub struct RateLimiter {
    entries: Vec<Entry>,
    table: Ghost<Map<Seq<char>, WindowState>>,
}

impl View for RateLimiter {
    type V = Map<Seq<char>, WindowState>;

    closed spec fn view(&self) -> Map<Seq<char>, WindowState> {
        self.table@
    }
}

impl RateLimiter {
    /// Each identity has one entry, the table holds exactly the entries, and no
    /// count exceeds the ceiling.
    pub closed spec fn wf(&self) -> bool {
        &&& forall|i: int, j: int|
            0 <= i < j < self.entries@.len() ==> self.entries@[i].identity@
                != self.entries@[j].identity@
        &&& forall|i: int|
            0 <= i < self.entries@.len() ==> {
                &&& #[trigger] self.table@.contains_key(self.entries@[i].identity@)
                &&& self.table@[self.entries@[i].identity@] == self.entries@[i].state
            }
        &&& forall|k: Seq<char>|
            #[trigger] self.table@.contains_key(k) ==> exists|i: int|
                0 <= i < self.entries@.len() && self.entries@[i].identity@ == k
        &&& forall|k: Seq<char>| #[trigger]
            self.table@.contains_key(k) ==> 1 <= self.table@[k].count <= MAX_REQUESTS
    }

    /// A limiter that has seen no identity.
    pub fn new() -> (r: RateLimiter)
        ensures
            r.wf(),
            r@ == Map::<Seq<char>, WindowState>::empty(),
    {
        RateLimiter { entries: Vec::new(), table: Ghost(Map::empty()) }
    }

    /// The record of `identity`, if it has been seen.
    pub fn window_of(&self, identity: &str) -> (r: Option<WindowState>)
        requires
            self.wf(),
        ensures
            r == (if self@.contains_key(identity@) {
                Some(self@[identity@])
            } else {
                None
            }),
    {
        match self.find(identity) {
            Some(i) => Some(self.entries[i].state),
            None => None,
        }
    }

    fn find(&self, identity: &str) -> (r: Option<usize>)
        requires
            self.wf(),
        ensures
            match r {
                Some(i) => i < self.entries@.len() && self.entries@[i as int].identity@ == identity@,
                None => !self@.contains_key(identity@),
            },
    {
        let key = String::from_str(identity);
        let mut i: usize = 0;
        while i < self.entries.len()
            invariant
                self.wf(),
                key@ == identity@,
                i <= self.entries@.len(),
                forall|j: int| 0 <= j < i ==> self.entries@[j].identity@ != identity@,
            decreases self.entries@.len() - i,
        {
            if self.entries[i].identity == key {
                return Some(i);
            }
            i = i + 1;
        }
        None
    }

    /// Decides whether a request from `identity` at time `now` (milliseconds) is
    /// admitted, and records it. A refused request leaves the table unchanged.
    pub fn try_admit(&mut self, identity: &str, now: u64) -> (r: Result<(), ApiError>)
        requires
            old(self).wf(),
        ensures
            final(self).wf(),
            (final(self)@, r is Ok) == admit_spec(old(self)@, identity@, now),
            r is Err ==> r == Err::<(), ApiError>(ApiError::RateLimitExceeded),
    {
        match self.find(identity) {
            None => {
                let fresh = WindowState { window_start: now, count: 1 };
                self.entries.push(Entry { identity: String::from_str(identity), state: fresh });
                self.table = Ghost(self.table@.insert(identity@, fresh));
                assert forall|k: Seq<char>| #[trigger] self.table@.contains_key(k) implies exists|i: int|
                    0 <= i < self.entries@.len() && self.entries@[i].identity@ == k by {
                    if k == identity@ {
                        assert(self.entries@[self.entries@.len() - 1].identity@ == k);
                    } else {
                        let j = choose|j: int|
                            0 <= j < old(self).entries@.len() && old(self).entries@[j].identity@ == k;
                        assert(self.entries@[j].identity@ == k);
                    }
                }
                Ok(())
            },
            Some(i) => {
                let st = self.entries[i].state;
                let passed: u64 = if now >= st.window_start {
                    now - st.window_start
                } else {
                    0
                };
                let next = if passed > WINDOW_MS {
                    WindowState { window_start: now, count: 1 }
                } else if st.count < MAX_REQUESTS {
                    WindowState { window_start: st.window_start, count: st.count + 1 }
                } else {
                    return Err(ApiError::RateLimitExceeded);
                };
                self.entries[i].state = next;
                self.table = Ghost(self.table@.insert(identity@, next));
                assert forall|k: Seq<char>| #[trigger] self.table@.contains_key(k) implies exists|j: int|
                    0 <= j < self.entries@.len() && self.entries@[j].identity@ == k by {
                    if k != identity@ {
                        let j = choose|j: int|
                            0 <= j < old(self).entries@.len() && old(self).entries@[j].identity@ == k;
                        assert(self.entries@[j].identity@ == k);
                    } else {
                        assert(self.entries@[i as int].identity@ == k);
                    }
                }
                Ok(())
            },
        }
    }
}

} // verus!
