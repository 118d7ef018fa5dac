//! The periodic refresher's part in the history: what one tick does with
//! the outcome of its fetch.

use crate::fetch::FetchError;
use crate::history::{pushed, HistoryBuffer, CAPACITY};
use vstd::prelude::*;

verus! {

/// Minutes between two ticks of the refresher.
pub const REFRESH_PERIOD_MINS: u32 = 5;

/// Seconds between two looks of the control loop at whether a tick is due.
pub const POLL_INTERVAL_SECS: u64 = 60;

/// The history after a tick whose fetch ended in `outcome`: a reading is
/// pushed as the newest entry, a failure changes nothing.
pub open spec fn after_tick(h: Seq<u16>, outcome: Result<u16, FetchError>) -> Seq<u16> {
    match outcome {
        Ok(v) => pushed(h, v),
        Err(_) => h,
    }
}

/// The history after the ticks whose fetches ended in `outcomes`, in order.
pub open spec fn after_ticks(h: Seq<u16>, outcomes: Seq<Result<u16, FetchError>>) -> Seq<u16>
    decreases outcomes.len(),
{
    if outcomes.len() == 0 {
        h
    } else {
        after_tick(after_ticks(h, outcomes.drop_last()), outcomes.last())
    }
}

/// Applies one tick of the refresher to the history and says whether a
/// reading was recorded. A failed fetch is skipped: nothing is pushed,
/// nothing is evicted.
pub fn tick(history: &mut HistoryBuffer, outcome: Result<u16, FetchError>) -> (recorded: bool)
    ensures
        final(history)@ == after_tick(old(history)@, outcome),
        recorded <==> outcome is Ok,
        outcome is Err ==> final(history)@ == old(history)@,
        old(history).wf() ==> final(history).wf(),
{
    match outcome {
        Ok(v) => {
            history.push_front(v);
            true
        },
        Err(_) => false,
    }
}

/// Whatever the fetches of any number of ticks return, a full history stays
/// full.
pub proof fn lemma_ticks_keep_length(h: Seq<u16>, outcomes: Seq<Result<u16, FetchError>>)
    requires
        h.len() == CAPACITY,
    ensures
        after_ticks(h, outcomes).len() == CAPACITY,
    decreases outcomes.len(),
{
    if outcomes.len() > 0 {
        lemma_ticks_keep_length(h, outcomes.drop_last());
    }
}

} // verus!
