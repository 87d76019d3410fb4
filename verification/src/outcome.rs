//! Classification of one retrieval unit's result.

use vstd::prelude::*;

verus! {

/// The outcome of fetching one retrieval unit (an rsync module or an RRDP
/// server): the fetch reported success, it reported an explicit failure, or
/// no outcome could be determined at all (a transport-level error).
#[derive(Clone, Copy, Debug, PartialEq, Eq, Structural)]
pub enum FetchOutcome {
    Success,
    Failure,
    Undetermined,
}

impl FetchOutcome {
    /// Whether the outcome was determined and successful.
    pub open spec fn spec_is_success(&self) -> bool {
        *self is Success
    }

    pub fn is_success(&self) -> (r: bool)
        ensures
            r == self.spec_is_success(),
    {
        matches!(*self, FetchOutcome::Success)
    }
}

} // verus!
