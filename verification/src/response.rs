//! The payload of the read endpoint.

use crate::history::{HistoryBuffer, CAPACITY};
use vstd::prelude::*;

verus! {

/// The current reading together with a copy of the history, newest first.
#[derive(Debug)]
pub struct GasResponse {
    pub average: u16,
    pub recent: Vec<u16>,
}

/// Composes the response from what the cache gave and the history as it is
/// now. It is all or nothing: without a current reading there is no
/// response, with one the response carries it and the whole history.
pub fn respond(current: Option<u16>, history: &HistoryBuffer) -> (r: Option<GasResponse>)
    ensures
        r is Some <==> current is Some,
        r is Some ==> r->Some_0.average == current->Some_0,
        r is Some ==> r->Some_0.recent@ == history@,
        r is Some && history.wf() ==> r->Some_0.recent@.len() == CAPACITY,
{
    match current {
        Some(average) => Some(GasResponse { average, recent: history.snapshot() }),
        None => None,
    }
}

} // verus!
