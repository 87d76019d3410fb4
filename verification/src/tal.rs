//! Per-trust-anchor metrics and their summary line.

use vstd::prelude::*;
use vstd::string::StringExecFns;
use std::sync::Arc;
use crate::text::spec_decimal;
use crate::text::u32_to_decimal;

verus! {

/// Identity of a trust anchor, as far as this crate reads it: its display
/// name.  The value is shared read-only, through a reference-counted
/// handle, with whatever other component tracks the same trust anchor.
#[derive(Clone, Debug)]
pub struct TalInfo {
    name: String,
}

impl View for TalInfo {
    type V = Seq<char>;

    closed spec fn view(&self) -> Seq<char> {
        self.name@
    }
}

impl TalInfo {
    pub fn from_name(name: String) -> (r: TalInfo)
        ensures
            r@ == name@,
    {
        TalInfo { name }
    }

    /// Wraps the identity in the shared handle the records hold.
    pub fn into_arc(self) -> (r: Arc<TalInfo>)
        ensures
            r == self,
    {
        Arc::new(self)
    }

    /// The trust anchor's display name.
    pub fn name(&self) -> (r: &str)
        ensures
            r@ == self@,
    {
        self.name.as_str()
    }
}

/// Per-trust-anchor metrics: a shared handle to the trust anchor's identity
/// and the counts one validation run produced for it.
#[derive(Clone, Debug)]
pub struct TalMetrics {
    /// The trust anchor these counts belong to.
    pub tal: Arc<TalInfo>,

    /// Number of accepted ROAs.
    pub roas: u32,

    /// Number of derived VRPs.
    pub vrps: u32,
}

impl TalMetrics {
    /// A fresh record for one trust anchor, with both counts zero.
    pub fn new(tal: Arc<TalInfo>) -> (r: TalMetrics)
        ensures
            r.tal == tal,
            r.roas == 0,
            r.vrps == 0,
    {
        TalMetrics { tal, roas: 0, vrps: 0 }
    }
}

/// What the summary says of one record: the trust anchor's display name,
/// its accepted-ROA count, and its derived-VRP count.
pub open spec fn spec_summary_line(t: TalMetrics) -> Seq<char> {
    t.tal@ + ": "@ + spec_decimal(t.roas as int) + " valid ROAs, "@
        + spec_decimal(t.vrps as int) + " VRPs."@
}

/// Renders one record's summary line.
pub fn summary_line(t: &TalMetrics) -> (r: String)
    ensures
        r@ == spec_summary_line(*t),
{
    let mut r = String::from_str(t.tal.name());
    r.append(": ");
    let roas = u32_to_decimal(t.roas);
    r.append(roas.as_str());
    r.append(" valid ROAs, ");
    let vrps = u32_to_decimal(t.vrps);
    r.append(vrps.as_str());
    r.append(" VRPs.");
    proof {
        assert(r@ =~= spec_summary_line(*t));
    }
    r
}

} // verus!
