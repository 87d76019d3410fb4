use run_metrics::FetchOutcome;
use run_metrics::Metrics;
use run_metrics::ModuleMetrics;
use run_metrics::ServerMetrics;
use run_metrics::TalInfo;
use run_metrics::TalMetrics;
use run_metrics::Timestamp;

fn tal_record(name: &str, roas: u32, vrps: u32) -> TalMetrics {
    let mut record = TalMetrics::new(TalInfo::from_name(String::from(name)).into_arc());
    record.roas = roas;
    record.vrps = vrps;
    record
}

#[test]
fn new_accumulator_is_empty() {
    let metrics = Metrics::new();
    assert_eq!(metrics.tals().len(), 0);
    assert_eq!(metrics.rsync().len(), 0);
    assert_eq!(metrics.rrdp().len(), 0);
}

#[test]
fn default_matches_new() {
    let metrics = Metrics::default();
    assert_eq!(metrics.tals().len(), 0);
    assert_eq!(metrics.rsync().len(), 0);
    assert_eq!(metrics.rrdp().len(), 0);
}

#[test]
fn empty_rsync_is_complete() {
    let metrics = Metrics::new();
    assert!(metrics.rsync_complete());
}

#[test]
fn replaced_empty_rsync_is_complete() {
    let mut metrics = Metrics::new();
    metrics.set_rsync(Vec::new());
    assert!(metrics.rsync_complete());
}

#[test]
fn all_success_is_complete() {
    let mut metrics = Metrics::new();
    metrics.set_rsync(vec![
        ModuleMetrics { status: FetchOutcome::Success },
        ModuleMetrics { status: FetchOutcome::Success },
        ModuleMetrics { status: FetchOutcome::Success },
    ]);
    assert!(metrics.rsync_complete());
}

#[test]
fn single_failure_is_incomplete() {
    let mut metrics = Metrics::new();
    metrics.set_rsync(vec![
        ModuleMetrics { status: FetchOutcome::Success },
        ModuleMetrics { status: FetchOutcome::Failure },
        ModuleMetrics { status: FetchOutcome::Success },
    ]);
    assert!(!metrics.rsync_complete());
}

#[test]
fn single_undetermined_is_incomplete() {
    let mut metrics = Metrics::new();
    metrics.set_rsync(vec![ModuleMetrics { status: FetchOutcome::Undetermined }]);
    assert!(!metrics.rsync_complete());
}

#[test]
fn outcome_classification() {
    assert!(FetchOutcome::Success.is_success());
    assert!(!FetchOutcome::Failure.is_success());
    assert!(!FetchOutcome::Undetermined.is_success());
}

#[test]
fn push_keeps_length_and_order() {
    let mut metrics = Metrics::new();
    metrics.push_tal(tal_record("alpha", 1, 2));
    metrics.push_tal(tal_record("beta", 3, 4));
    metrics.push_tal(tal_record("gamma", 5, 6));
    let tals = metrics.tals();
    assert_eq!(tals.len(), 3);
    assert_eq!(tals[0].tal.name(), "alpha");
    assert_eq!(tals[1].tal.name(), "beta");
    assert_eq!(tals[2].tal.name(), "gamma");
    assert_eq!(tals[1].roas, 3);
    assert_eq!(tals[1].vrps, 4);
}

#[test]
fn push_keeps_duplicates() {
    let mut metrics = Metrics::new();
    metrics.push_tal(tal_record("twin", 1, 1));
    metrics.push_tal(tal_record("twin", 1, 1));
    assert_eq!(metrics.tals().len(), 2);
    assert_eq!(metrics.tals()[0].tal.name(), "twin");
    assert_eq!(metrics.tals()[1].tal.name(), "twin");
}

#[test]
fn second_rsync_replace_wins() {
    let mut metrics = Metrics::new();
    metrics.set_rsync(vec![
        ModuleMetrics { status: FetchOutcome::Failure },
        ModuleMetrics { status: FetchOutcome::Failure },
        ModuleMetrics { status: FetchOutcome::Failure },
    ]);
    metrics.set_rsync(vec![ModuleMetrics { status: FetchOutcome::Success }]);
    assert_eq!(metrics.rsync().len(), 1);
    assert_eq!(metrics.rsync()[0].status, FetchOutcome::Success);
    assert!(metrics.rsync_complete());
}

#[test]
fn second_rrdp_replace_wins() {
    let mut metrics = Metrics::new();
    metrics.set_rrdp(vec![ServerMetrics { status: FetchOutcome::Success }]);
    metrics.set_rrdp(vec![
        ServerMetrics { status: FetchOutcome::Undetermined },
        ServerMetrics { status: FetchOutcome::Failure },
    ]);
    assert_eq!(metrics.rrdp().len(), 2);
    assert_eq!(metrics.rrdp()[0].status, FetchOutcome::Undetermined);
    assert_eq!(metrics.rrdp()[1].status, FetchOutcome::Failure);
}

#[test]
fn timestamp_queries_agree() {
    let metrics = Metrics::new();
    assert_eq!(metrics.time().to_unix(), metrics.timestamp());
}

#[test]
fn collection_time_is_plausible() {
    let metrics = Metrics::new();
    // After 2020-01-01T00:00:00Z and within chrono's sub-second bound.
    assert!(metrics.timestamp() > 1_577_836_800);
    assert!(metrics.time().subsec_nanos() < 2_000_000_000);
}

#[test]
fn timestamp_roundtrip() {
    let stamp = Timestamp::new(1_431_648_000, 250);
    assert_eq!(stamp.to_unix(), 1_431_648_000);
    assert_eq!(stamp.subsec_nanos(), 250);
}

#[test]
fn fresh_tal_record_has_zero_counts() {
    let record = TalMetrics::new(TalInfo::from_name(String::from("ripe")).into_arc());
    assert_eq!(record.tal.name(), "ripe");
    assert_eq!(record.roas, 0);
    assert_eq!(record.vrps, 0);
}

#[test]
fn scenario_one_anchor_one_failed_module() {
    let mut metrics = Metrics::new();
    metrics.push_tal(tal_record("anchor-A", 12, 30));
    metrics.set_rsync(vec![
        ModuleMetrics { status: FetchOutcome::Success },
        ModuleMetrics { status: FetchOutcome::Failure },
    ]);
    assert!(!metrics.rsync_complete());
    let lines = metrics.log();
    assert!(lines.iter().any(|line| line == "anchor-A: 12 valid ROAs, 30 VRPs."));
}

#[test]
fn summary_shape() {
    let mut metrics = Metrics::new();
    metrics.push_tal(tal_record("first", 0, 0));
    metrics.push_tal(tal_record("second", 7, 4_294_967_295));
    let lines = metrics.log();
    assert_eq!(lines.len(), 3);
    assert_eq!(lines[0], "Summary:");
    assert_eq!(lines[1], "first: 0 valid ROAs, 0 VRPs.");
    assert_eq!(lines[2], "second: 7 valid ROAs, 4294967295 VRPs.");
}

#[test]
fn summary_of_empty_run_is_header_only() {
    let metrics = Metrics::new();
    let lines = metrics.log();
    assert_eq!(lines, vec![String::from("Summary:")]);
}
