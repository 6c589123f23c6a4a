//! The tri-state answer a postpone request receives.

use vstd::prelude::*;

verus! {

/// The result of a postpone request.
///
/// There is no error type: this value is the whole contract of a postpone
/// call, and callers are expected to examine it rather than drop it.
#[derive(Copy, Clone, Debug, Eq, PartialEq, Structural)]
pub enum PostponeDelayResponse {
    /// The delay has been successfully postponed.
    Postponed,
    /// The delay can't be postponed because it has already resolved.
    AlreadyResolved,
    /// The request would need the delay to wake up earlier than already
    /// planned, and was thus refused.
    CantResolveEarlier,
}

impl PostponeDelayResponse {
    /// Asserts that the postpone request succeeded.
    ///
    /// Meant for callers that treat anything but success as a fatal mistake:
    /// the precondition makes them show the response is `Postponed` before moving on.
    pub fn unwrap(self)
        requires
            self is Postponed,
    {
    }
}

} // verus!
