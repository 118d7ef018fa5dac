//! Fixed-capacity, newest-first record of past readings.

use std::collections::VecDeque;
use vstd::prelude::*;

verus! {

/// Number of readings the history always holds.
pub const CAPACITY: usize = 50;

/// Value that fills the history before any reading was observed.
pub const SENTINEL: u16 = 0;

/// The contents of a freshly initialised history: `CAPACITY` sentinels.
pub open spec fn initial() -> Seq<u16> {
    Seq::new(CAPACITY as nat, |i: int| SENTINEL)
}

/// Contents after inserting `v` as the newest element of `s` and dropping
/// oldest elements until at most `CAPACITY` remain.
pub open spec fn pushed(s: Seq<u16>, v: u16) -> Seq<u16> {
    let t = seq![v] + s;
    if t.len() > CAPACITY {
        t.subrange(0, CAPACITY as int)
    } else {
        t
    }
}

/// Contents after pushing the elements of `vs` one after another, `vs[0]`
/// first.
pub open spec fn pushed_all(s: Seq<u16>, vs: Seq<u16>) -> Seq<u16>
    decreases vs.len(),
{
    if vs.len() == 0 {
        s
    } else {
        pushed(pushed_all(s, vs.drop_last()), vs.last())
    }
}

/// The most recent readings, newest first. A history starts full and every
/// operation keeps it full.
pub struct HistoryBuffer {
    items: VecDeque<u16>,
}

impl View for HistoryBuffer {
    type V = Seq<u16>;

    closed spec fn view(&self) -> Seq<u16> {
        self.items@
    }
}

impl HistoryBuffer {
    /// The history is full: it holds exactly `CAPACITY` readings.
    pub open spec fn wf(&self) -> bool {
        self@.len() == CAPACITY
    }

    /// A history filled with sentinels.
    pub fn new() -> (h: Self)
        ensures
            h@ == initial(),
            h.wf(),
    {
        let mut items: VecDeque<u16> = VecDeque::with_capacity(CAPACITY);
        let mut i: usize = 0;
        while i < CAPACITY
            invariant
                i <= CAPACITY,
                items@.len() == i,
                forall|j: int| 0 <= j < i ==> items@[j] == SENTINEL,
            decreases CAPACITY - i,
        {
            items.push_front(SENTINEL);
            i += 1;
        }
        assert(items@ =~= initial());
        HistoryBuffer { items }
    }

    /// Number of readings held.
    pub fn len(&self) -> (n: usize)
        ensures
            n == self@.len(),
            self.wf() ==> n == CAPACITY,
    {
        self.items.len()
    }

    /// Records `v` as the newest reading, then drops oldest readings until no
    /// more than `CAPACITY` are held. On a full history exactly one reading,
    /// the oldest, leaves.
    pub fn push_front(&mut self, v: u16)
        ensures
            final(self)@ == pushed(old(self)@, v),
            old(self).wf() ==> final(self).wf(),
            old(self).wf() ==> final(self)@ == seq![v] + old(self)@.subrange(
                0,
                CAPACITY - 1,
            ),
    {
        let ghost before = self.items@;
        self.items.push_front(v);
        while self.items.len() > CAPACITY
            invariant
                self.items@.len() <= before.len() + 1,
                self.items@ == (seq![v] + before).subrange(0, self.items@.len() as int),
                before.len() + 1 > CAPACITY ==> self.items@.len() >= CAPACITY,
                before.len() + 1 <= CAPACITY ==> self.items@.len() == before.len() + 1,
            decreases self.items@.len(),
        {
            self.items.pop_back();
        }
        assert(self.items@ =~= pushed(before, v));
        assert(before.len() == CAPACITY ==> self.items@ =~= seq![v] + before.subrange(
            0,
            CAPACITY - 1,
        ));
    }

    /// A copy of the readings, newest first. The history is left as it was.
    pub fn snapshot(&self) -> (out: Vec<u16>)
        ensures
            out@ == self@,
            self.wf() ==> out@.len() == CAPACITY,
    {
        let n: usize = self.items.len();
        let mut out: Vec<u16> = Vec::with_capacity(n);
        let mut i: usize = 0;
        while i < n
            invariant
                n == self.items@.len(),
                i <= n,
                out@ == self.items@.subrange(0, i as int),
            decreases n - i,
        {
            out.push(self.items[i]);
            assert(out@ =~= self.items@.subrange(0, i + 1));
            i += 1;
        }
        assert(out@ =~= self.items@);
        out
    }
}

/// Starting from a full history, any sequence of pushes leaves it full:
/// the length is `CAPACITY` after every push, never more and never less.
pub proof fn lemma_length_is_constant(s: Seq<u16>, vs: Seq<u16>)
    requires
        s.len() == CAPACITY,
    ensures
        pushed_all(s, vs).len() == CAPACITY,
    decreases vs.len(),
{
    if vs.len() > 0 {
        lemma_length_is_constant(s, vs.drop_last());
    }
}

/// Pushing `vs` onto a full history `s` yields the pushed values in reverse
/// order of arrival, followed by the entries of `s`, cut to `CAPACITY`.
pub proof fn lemma_pushed_all(s: Seq<u16>, vs: Seq<u16>)
    requires
        s.len() == CAPACITY,
    ensures
        pushed_all(s, vs) == (vs.reverse() + s).subrange(0, CAPACITY as int),
    decreases vs.len(),
{
    if vs.len() > 0 {
        lemma_pushed_all(s, vs.drop_last());
    }
    assert(pushed_all(s, vs) =~= (vs.reverse() + s).subrange(0, CAPACITY as int));
}

/// Push order: after pushing fewer values than the capacity onto a full
/// history, the snapshot starts with those values, newest first, and goes on
/// with the entries that were there before, oldest ones dropped.
pub proof fn lemma_push_order(s: Seq<u16>, vs: Seq<u16>)
    requires
        s.len() == CAPACITY,
        vs.len() < CAPACITY,
    ensures
        pushed_all(s, vs) == vs.reverse() + s.subrange(0, CAPACITY - vs.len()),
        forall|i: int| 0 <= i < vs.len() ==> pushed_all(s, vs)[i] == vs[vs.len() - 1 - i],
        forall|i: int| vs.len() <= i < CAPACITY ==> pushed_all(s, vs)[i] == s[i - vs.len()],
{
    lemma_pushed_all(s, vs);
    assert(pushed_all(s, vs) =~= vs.reverse() + s.subrange(0, CAPACITY - vs.len()));
}

/// Eviction: once at least `CAPACITY` values were pushed, the history holds
/// exactly the last `CAPACITY` of them, newest first, so nothing of what it
/// held before and none of the earlier pushes is left in any position.
pub proof fn lemma_eviction(s: Seq<u16>, vs: Seq<u16>)
    requires
        s.len() == CAPACITY,
        vs.len() >= CAPACITY,
    ensures
        pushed_all(s, vs).len() == CAPACITY,
        pushed_all(s, vs) == vs.subrange(vs.len() - CAPACITY, vs.len() as int).reverse(),
{
    lemma_pushed_all(s, vs);
    assert(pushed_all(s, vs) =~= vs.subrange(vs.len() - CAPACITY, vs.len() as int).reverse());
}

/// Eviction of the first push: after more pushes than the capacity, the
/// length is still `CAPACITY` and the value pushed first is gone, provided no
/// later push brought the same value again.
pub proof fn lemma_first_push_evicted(s: Seq<u16>, vs: Seq<u16>)
    requires
        s.len() == CAPACITY,
        vs.len() > CAPACITY,
        forall|i: int| 1 <= i < vs.len() ==> #[trigger] vs[i] != vs[0],
    ensures
        pushed_all(s, vs).len() == CAPACITY,
        !pushed_all(s, vs).contains(vs[0]),
{
    lemma_eviction(s, vs);
    let r = pushed_all(s, vs);
    assert forall|j: int| 0 <= j < r.len() implies r[j] != vs[0] by {
        assert(r[j] == vs[vs.len() - 1 - j]);
    }
}

} // verus!
