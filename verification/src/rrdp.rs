//! Per-server status records delivered by the RRDP collaborator.

use vstd::prelude::*;
use crate::outcome::FetchOutcome;

verus! {

/// The result of fetching from one configured RRDP server.
#[derive(Clone, Copy, Debug, PartialEq, Eq, Structural)]
pub struct ServerMetrics {
    /// The outcome of the fetch.
    pub status: FetchOutcome,
}

} // verus!
