//! Expiring single-value cache with single-flight refresh.
//!
//! The cache holds at most one reading together with the time of the fetch
//! that produced it. It performs no fetch and reads no clock itself: callers
//! pass the current time in seconds, are told whether to serve the stored
//! reading, start a fetch or join the one already running, and report the
//! outcome of the fetch they were asked to start.

use crate::fetch::FetchError;
use vstd::prelude::*;

verus! {

/// Seconds for which a fetched reading is served without a new fetch.
pub const TTL_SECS: u64 = 60;

/// A reading and the time, in seconds, of the fetch that produced it.
#[derive(Clone, Copy, Debug, PartialEq, Eq, Structural)]
pub struct Stamped {
    pub value: u16,
    pub fetched_at: u64,
}

/// What a caller asking for the current reading has to do.
#[derive(Clone, Copy, Debug, PartialEq, Eq, Structural)]
pub enum Lookup {
    /// The stored reading is fresh: serve it, no fetch.
    Hit(u16),
    /// Nothing fresh is stored and no fetch is running: this caller fetches
    /// and reports the outcome with `complete`.
    Fetch,
    /// Nothing fresh is stored but a fetch is running: wait for its outcome.
    Join,
}

/// Abstract state of the cache.
pub struct CacheState {
    /// The last successfully fetched reading, if any.
    pub slot: Option<Stamped>,
    /// Whether a fetch has been started and not yet reported.
    pub in_flight: bool,
    /// What the most recently reported fetch handed to its callers.
    pub last: Option<u16>,
}

/// The cache before anything was fetched.
pub open spec fn empty_state() -> CacheState {
    CacheState { slot: None, in_flight: false, last: None }
}

/// A stored reading is fresh at `now` while its age is below the time to live.
pub open spec fn fresh(s: CacheState, now: u64) -> bool {
    match s.slot {
        Some(e) => now - e.fetched_at < TTL_SECS,
        None => false,
    }
}

/// What a request at `now` is told in state `s`.
pub open spec fn lookup_of(s: CacheState, now: u64) -> Lookup {
    if fresh(s, now) {
        Lookup::Hit(s.slot->Some_0.value)
    } else if s.in_flight {
        Lookup::Join
    } else {
        Lookup::Fetch
    }
}

/// The state after a request at `now` in state `s`: only a request that is
/// told to fetch changes anything, by marking the fetch as running.
pub open spec fn after_request(s: CacheState, now: u64) -> CacheState {
    if lookup_of(s, now) == Lookup::Fetch {
        CacheState { in_flight: true, ..s }
    } else {
        s
    }
}

/// What the callers of a miss episode receive when its fetch reported
/// `outcome`.
pub open spec fn delivered(outcome: Result<u16, FetchError>) -> Option<u16> {
    match outcome {
        Ok(v) => Some(v),
        Err(_) => None,
    }
}

/// The state after the running fetch reported `outcome` at `now`: a success
/// replaces the stored reading and restarts its age, a failure leaves the
/// stored reading and its age as they were. Either way the fetch is over
/// and what it handed out is kept for the callers that joined it.
pub open spec fn after_complete(
    s: CacheState,
    outcome: Result<u16, FetchError>,
    now: u64,
) -> CacheState {
    match outcome {
        Ok(v) => CacheState {
            slot: Some(Stamped { value: v, fetched_at: now }),
            in_flight: false,
            last: Some(v),
        },
        Err(_) => CacheState { slot: s.slot, in_flight: false, last: None },
    }
}

/// The state after requests at the times `nows`, one after another.
pub open spec fn after_requests(s: CacheState, nows: Seq<u64>) -> CacheState
    decreases nows.len(),
{
    if nows.len() == 0 {
        s
    } else {
        after_request(after_requests(s, nows.drop_last()), nows.last())
    }
}

/// What the requests at the times `nows` are told, in order.
pub open spec fn lookups_of(s: CacheState, nows: Seq<u64>) -> Seq<Lookup> {
    Seq::new(nows.len(), |i: int| lookup_of(after_requests(s, nows.subrange(0, i)), nows[i]))
}

/// Number of requests among `lookups` that were told to fetch.
pub open spec fn fetches(lookups: Seq<Lookup>) -> nat
    decreases lookups.len(),
{
    if lookups.len() == 0 {
        0
    } else {
        fetches(lookups.drop_last()) + if lookups.last() == Lookup::Fetch {
            1nat
        } else {
            0nat
        }
    }
}

/// The expiring cache of the current reading.
pub struct CurrentCache {
    slot: Option<Stamped>,
    in_flight: bool,
    last: Option<u16>,
}

impl View for CurrentCache {
    type V = CacheState;

    closed spec fn view(&self) -> CacheState {
        CacheState { slot: self.slot, in_flight: self.in_flight, last: self.last }
    }
}

impl CurrentCache {
    /// An empty cache with no fetch running.
    pub fn new() -> (c: Self)
        ensures
            c@ == empty_state(),
    {
        CurrentCache { slot: None, in_flight: false, last: None }
    }

    /// The stored reading with the time of its fetch, fresh or not.
    pub fn stored(&self) -> (e: Option<Stamped>)
        ensures
            e == self@.slot,
    {
        self.slot
    }

    /// Whether a fetch was started and has not reported yet.
    pub fn in_flight(&self) -> (b: bool)
        ensures
            b == self@.in_flight,
    {
        self.in_flight
    }

    /// What the most recently reported fetch handed to its callers: the
    /// result for a caller that was told to join and has waited for the
    /// report.
    pub fn last_delivered(&self) -> (r: Option<u16>)
        ensures
            r == self@.last,
    {
        self.last
    }

    /// Whether the stored reading may be served at `now` without a fetch.
    pub fn is_fresh(&self, now: u64) -> (b: bool)
        ensures
            b == fresh(self@, now),
    {
        match self.slot {
            Some(e) => now < e.fetched_at || now - e.fetched_at < TTL_SECS,
            None => false,
        }
    }

    /// Answers one caller asking for the current reading at `now`. A fresh
    /// reading is served as it is. Otherwise the first caller is told to
    /// fetch and the fetch is marked as running; every caller after it,
    /// until the outcome is reported, is told to join.
    pub fn request(&mut self, now: u64) -> (l: Lookup)
        ensures
            l == lookup_of(old(self)@, now),
            final(self)@ == after_request(old(self)@, now),
            final(self)@.slot == old(self)@.slot,
            l != Lookup::Fetch ==> final(self)@ == old(self)@,
    {
        if self.is_fresh(now) {
            match self.slot {
                Some(e) => Lookup::Hit(e.value),
                None => Lookup::Join,
            }
        } else if self.in_flight {
            Lookup::Join
        } else {
            self.in_flight = true;
            Lookup::Fetch
        }
    }

    /// Reports the outcome of the running fetch, obtained at `now`, and
    /// returns what every caller of this miss episode receives. A success
    /// is stored with `now` as its time; a failure stores nothing and leaves
    /// an earlier reading as stale as it was.
    pub fn complete(&mut self, outcome: Result<u16, FetchError>, now: u64) -> (r: Option<u16>)
        ensures
            r == delivered(outcome),
            final(self)@ == after_complete(old(self)@, outcome, now),
            final(self)@.last == r,
            !final(self)@.in_flight,
            outcome is Err ==> final(self)@.slot == old(self)@.slot,
    {
        self.in_flight = false;
        match outcome {
            Ok(v) => {
                self.slot = Some(Stamped { value: v, fetched_at: now });
                self.last = Some(v);
            },
            Err(_) => {
                self.last = None;
            },
        }
        self.last
    }
}

/// Single flight: while nothing fresh is stored and no fetch is running, of
/// any number of requests that arrive before the outcome is reported the
/// first is told to fetch and all others to join, so exactly one fetch is
/// made. The one report that ends the episode hands the same result,
/// `delivered(outcome)`, to the caller that fetched and, through the state,
/// to every caller that joined.
pub proof fn lemma_single_flight(
    s: CacheState,
    nows: Seq<u64>,
    outcome: Result<u16, FetchError>,
    done: u64,
)
    requires
        !s.in_flight,
        nows.len() > 0,
        forall|i: int| 0 <= i < nows.len() ==> !fresh(s, #[trigger] nows[i]),
    ensures
        lookups_of(s, nows)[0] == Lookup::Fetch,
        forall|i: int| 1 <= i < nows.len() ==> #[trigger] lookups_of(s, nows)[i] == Lookup::Join,
        fetches(lookups_of(s, nows)) == 1,
        after_requests(s, nows) == (CacheState { in_flight: true, ..s }),
        after_complete(after_requests(s, nows), outcome, done).last == delivered(outcome),
        !after_complete(after_requests(s, nows), outcome, done).in_flight,
    decreases nows.len(),
{
    let ls = lookups_of(s, nows);
    let front = nows.drop_last();
    let last = nows.len() - 1;
    assert(nows.subrange(0, 0) =~= Seq::<u64>::empty());
    assert(after_requests(s, nows.subrange(0, 0)) == s);
    if nows.len() == 1 {
        assert(front =~= Seq::<u64>::empty());
        assert(ls.drop_last() =~= Seq::<Lookup>::empty());
        assert(fetches(ls.drop_last()) == 0);
    } else {
        lemma_single_flight(s, front, outcome, done);
        assert(nows.subrange(0, last) =~= front);
        assert forall|i: int| 0 <= i < front.len() implies lookups_of(s, front)[i] == ls[i] by {
            assert(front.subrange(0, i) =~= nows.subrange(0, i));
        }
        assert(ls.drop_last() =~= lookups_of(s, front));
        assert(ls[last] == Lookup::Join);
    }
}

/// Time to live: after a fetch that succeeded with `v` at `t0`, a request
/// strictly before `TTL_SECS` have passed is served `v` and starts no
/// fetch; a request once `TTL_SECS` or more have passed is told to fetch.
pub proof fn lemma_ttl(s: CacheState, v: u16, t0: u64, now: u64)
    ensures
        now - t0 < TTL_SECS ==> lookup_of(after_complete(s, Ok(v), t0), now) == Lookup::Hit(v),
        now - t0 < TTL_SECS ==> after_request(after_complete(s, Ok(v), t0), now) == after_complete(
            s,
            Ok(v),
            t0,
        ),
        now - t0 >= TTL_SECS ==> lookup_of(after_complete(s, Ok(v), t0), now) == Lookup::Fetch,
        now - t0 >= TTL_SECS ==> after_request(after_complete(s, Ok(v), t0), now).in_flight,
{
}

/// A failed fetch preserves the cache: the stored reading, if any, and its
/// age are what they were, so the reading is as stale as before the attempt
/// and the next request, at the same or a later time, is told to fetch
/// again rather than served.
pub proof fn lemma_failure_preserves(s: CacheState, e: FetchError, t1: u64, t2: u64, now: u64)
    requires
        !fresh(s, t1),
        t1 <= t2 <= now,
    ensures
        after_complete(s, Err(e), t2).slot == s.slot,
        delivered(Err(e)) is None,
        !fresh(after_complete(s, Err(e), t2), now),
        lookup_of(after_complete(s, Err(e), t2), now) == Lookup::Fetch,
{
}

} // verus!
