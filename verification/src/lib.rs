//! End-of-run metrics aggregation for an RPKI relying-party validation run.
//!
//! A validation run fetches certificate material for a set of configured
//! trust anchors, validates it, and derives validated ROA payloads (VRPs).
//! This crate collects the numbers such a run reports: one record per trust
//! anchor processed, one status record per rsync module fetched, and one per
//! RRDP server contacted.  After a run, readers query the collection time,
//! the record lists, the derived rsync completeness judgement, and a
//! human-readable summary.

pub mod metrics;
pub mod outcome;
pub mod rrdp;
pub mod rsync;
pub mod tal;
pub mod text;
pub mod time;

pub use metrics::Metrics;
pub use outcome::FetchOutcome;
pub use rrdp::ServerMetrics;
pub use rsync::ModuleMetrics;
pub use tal::TalInfo;
pub use tal::TalMetrics;
pub use time::Timestamp;
