//! The run metrics accumulator.

use vstd::prelude::*;
use vstd::string::StringExecFns;
use crate::outcome::FetchOutcome;
use crate::rrdp::ServerMetrics;
use crate::rsync::ModuleMetrics;
use crate::rsync::all_modules_succeeded;
use crate::tal::TalMetrics;
use crate::tal::spec_summary_line;
use crate::tal::summary_line;
use crate::time::Timestamp;

verus! {

/// The metrics of one validation run.
///
/// Created empty at run start, populated while the run lasts — one
/// per-trust-anchor record appended per trust anchor processed, and one
/// wholesale replacement per retrieval protocol once its fetches are
/// done — and queried read-only afterwards.
#[derive(Debug)]
pub struct Metrics {
    /// Time when these metrics have been collected.
    time: Timestamp,

    /// Per-TAL metrics, in processing order.
    tals: Vec<TalMetrics>,

    /// Rsync metrics, one record per configured module.
    rsync: Vec<ModuleMetrics>,

    /// RRDP metrics, one record per configured server.
    rrdp: Vec<ServerMetrics>,
}

impl Metrics {
    /// The time the metrics were collected.
    pub closed spec fn spec_time(&self) -> Timestamp {
        self.time
    }

    /// The per-trust-anchor records, in the order they were appended.
    pub closed spec fn spec_tals(&self) -> Seq<TalMetrics> {
        self.tals@
    }

    /// The rsync records, in the order of the list last handed over.
    pub closed spec fn spec_rsync(&self) -> Seq<ModuleMetrics> {
        self.rsync@
    }

    /// The RRDP records, in the order of the list last handed over.
    pub closed spec fn spec_rrdp(&self) -> Seq<ServerMetrics> {
        self.rrdp@
    }

    /// What the Unix-epoch query returns.
    pub closed spec fn spec_timestamp(&self) -> i64 {
        self.time.spec_secs()
    }

    /// A fresh accumulator: collection time taken from the clock now, all
    /// three record lists empty.
    pub fn new() -> (r: Metrics)
        ensures
            r.spec_time().wf(),
            r.spec_tals() =~= Seq::<TalMetrics>::empty(),
            r.spec_rsync() =~= Seq::<ModuleMetrics>::empty(),
            r.spec_rrdp() =~= Seq::<ServerMetrics>::empty(),
    {
        Metrics {
            time: Timestamp::now(),
            tals: Vec::new(),
            rsync: Vec::new(),
            rrdp: Vec::new(),
        }
    }

    /// Appends one per-trust-anchor record.  The list keeps every record
    /// handed in, in order: nothing is reordered, merged, or dropped, and
    /// duplicate trust anchors are legal at this layer.
    pub fn push_tal(&mut self, tal: TalMetrics)
        ensures
            final(self).spec_tals() == old(self).spec_tals().push(tal),
            final(self).spec_time() == old(self).spec_time(),
            final(self).spec_rsync() == old(self).spec_rsync(),
            final(self).spec_rrdp() == old(self).spec_rrdp(),
    {
        self.tals.push(tal)
    }

    /// Replaces the rsync record list wholesale.  The list handed in is the
    /// complete state for the protocol: whatever list was there before is
    /// discarded, with no merge (last write wins).
    pub fn set_rsync(&mut self, rsync: Vec<ModuleMetrics>)
        ensures
            final(self).spec_rsync() == rsync@,
            final(self).spec_time() == old(self).spec_time(),
            final(self).spec_tals() == old(self).spec_tals(),
            final(self).spec_rrdp() == old(self).spec_rrdp(),
    {
        self.rsync = rsync
    }

    /// Replaces the RRDP record list wholesale; same contract as the rsync
    /// replacement.
    pub fn set_rrdp(&mut self, rrdp: Vec<ServerMetrics>)
        ensures
            final(self).spec_rrdp() == rrdp@,
            final(self).spec_time() == old(self).spec_time(),
            final(self).spec_tals() == old(self).spec_tals(),
            final(self).spec_rsync() == old(self).spec_rsync(),
    {
        self.rrdp = rrdp
    }

    /// The time the metrics were collected.
    pub fn time(&self) -> (r: Timestamp)
        ensures
            r == self.spec_time(),
    {
        self.time
    }

    /// The collection time as a Unix-epoch integer.
    pub fn timestamp(&self) -> (r: i64)
        ensures
            r == self.spec_timestamp(),
    {
        self.time.to_unix()
    }

    /// The per-trust-anchor records, in the order they were appended.
    pub fn tals(&self) -> (r: &[TalMetrics])
        ensures
            r@ == self.spec_tals(),
    {
        self.tals.as_slice()
    }

    /// The rsync records last handed over.
    pub fn rsync(&self) -> (r: &[ModuleMetrics])
        ensures
            r@ == self.spec_rsync(),
    {
        self.rsync.as_slice()
    }

    /// The RRDP records last handed over.
    pub fn rrdp(&self) -> (r: &[ServerMetrics])
        ensures
            r@ == self.spec_rrdp(),
    {
        self.rrdp.as_slice()
    }

    /// Whether the run's rsync stage completed: no stored module fetch
    /// reported an explicit failure or ended undetermined.  True of an
    /// empty list; a caller that must tell "no modules configured" from
    /// "all modules succeeded" checks the list's length as well.
    pub fn rsync_complete(&self) -> (r: bool)
        ensures
            r == all_modules_succeeded(self.spec_rsync()),
    {
        let mut i: usize = 0;
        while i < self.rsync.len()
            invariant
                i <= self.rsync.len(),
                forall|j: int| 0 <= j < i ==> self.rsync@[j].status.spec_is_success(),
            decreases self.rsync.len() - i,
        {
            match self.rsync[i].status {
                FetchOutcome::Success => {}
                _ => {
                    return false;
                }
            }
            i += 1;
        }
        true
    }

    /// The summary digest: a header line, then one line per trust-anchor
    /// record, in processing order.  The caller hands the lines to its
    /// logging sink; producing them changes nothing.
    pub fn log(&self) -> (lines: Vec<String>)
        ensures
            lines@.len() == 1 + self.spec_tals().len(),
            lines@[0]@ == "Summary:"@,
            forall|i: int|
                #![trigger lines@[i]]
                1 <= i < lines@.len() ==> lines@[i]@ == spec_summary_line(
                    self.spec_tals()[i - 1],
                ),
    {
        let mut lines: Vec<String> = Vec::new();
        lines.push(String::from_str("Summary:"));
        let mut i: usize = 0;
        while i < self.tals.len()
            invariant
                i <= self.tals.len(),
                lines@.len() == 1 + i,
                lines@[0]@ == "Summary:"@,
                forall|j: int|
                    #![trigger lines@[j]]
                    1 <= j < lines@.len() ==> lines@[j]@ == spec_summary_line(
                        self.tals@[j - 1],
                    ),
            decreases self.tals.len() - i,
        {
            let line = summary_line(&self.tals[i]);
            lines.push(line);
            i += 1;
        }
        lines
    }
}

impl Default for Metrics {
    /// A fresh accumulator, exactly as the constructor builds it.
    fn default() -> (r: Self)
        ensures
            r.spec_time().wf(),
            r.spec_tals() =~= Seq::<TalMetrics>::empty(),
            r.spec_rsync() =~= Seq::<ModuleMetrics>::empty(),
            r.spec_rrdp() =~= Seq::<ServerMetrics>::empty(),
    {
        Self::new()
    }
}

/// The two timestamp queries agree: for any accumulator, the Unix-epoch
/// integer equals the structured collection timestamp converted to epoch
/// seconds.
pub proof fn lemma_timestamp_queries_agree(m: &Metrics)
    ensures
        m.spec_timestamp() == m.spec_time().spec_unix(),
{
}

} // verus!
