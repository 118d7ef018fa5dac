//! Outcome of one attempt to obtain a reading from the upstream source.

use vstd::prelude::*;

verus! {

/// Why an upstream fetch produced no reading.
#[derive(Clone, Copy, Debug, PartialEq, Eq, Structural)]
pub enum FetchError {
    /// The transport call failed or timed out.
    Network,
    /// A response arrived but did not have the expected shape.
    Decode,
}

/// The outcome that a fetch attempt stands for: `delivered` says whether the
/// transport call produced a response at all, `average` is the numeric field
/// decoded from its body, if the body had the expected shape.
pub open spec fn outcome_of(delivered: bool, average: Option<u16>) -> Result<u16, FetchError> {
    if !delivered {
        Err(FetchError::Network)
    } else {
        match average {
            Some(v) => Ok(v),
            None => Err(FetchError::Decode),
        }
    }
}

/// Classifies one fetch attempt. A transport failure wins over anything said
/// about the body; a delivered body without the field is a decode failure.
pub fn outcome(delivered: bool, average: Option<u16>) -> (r: Result<u16, FetchError>)
    ensures
        r == outcome_of(delivered, average),
        r is Ok <==> delivered && average is Some,
        r == Err::<u16, FetchError>(FetchError::Network) <==> !delivered,
        r == Err::<u16, FetchError>(FetchError::Decode) <==> delivered && average is None,
{
    if !delivered {
        Err(FetchError::Network)
    } else {
        match average {
            Some(v) => Ok(v),
            None => Err(FetchError::Decode),
        }
    }
}

} // verus!
