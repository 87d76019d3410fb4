//! Per-module status records delivered by the rsync collaborator.

use vstd::prelude::*;
use crate::outcome::FetchOutcome;

verus! {

/// The result of fetching one configured rsync module.
#[derive(Clone, Copy, Debug, PartialEq, Eq, Structural)]
pub struct ModuleMetrics {
    /// The outcome of the fetch.
    pub status: FetchOutcome,
}

/// Whether every module fetch in the list was determined and successful.
/// An empty list counts, vacuously.
pub open spec fn all_modules_succeeded(s: Seq<ModuleMetrics>) -> bool {
    forall|i: int| 0 <= i < s.len() ==> s[i].status.spec_is_success()
}

/// An empty module list is complete: with no fetches stored, success holds
/// vacuously.  Callers that must tell "no modules configured" from "all
/// modules succeeded" have to check the list's length themselves.
pub proof fn lemma_empty_list_succeeded(s: Seq<ModuleMetrics>)
    requires
        s.len() == 0,
    ensures
        all_modules_succeeded(s),
{
}

/// Success over a list is the conjunction over its entries: it holds if and
/// only if no single entry failed or ended undetermined, however many other
/// entries succeeded.
pub proof fn lemma_succeeded_iff_no_bad_entry(s: Seq<ModuleMetrics>)
    ensures
        all_modules_succeeded(s) <==> !(exists|i: int|
            0 <= i < s.len() && !s[i].status.spec_is_success()),
{
}

} // verus!
