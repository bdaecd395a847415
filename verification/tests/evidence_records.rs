use voxproof_evidence::evidence_01c::measurements::{aggregate, sorted_successful_elapsed};
use voxproof_evidence::evidence_01c::measurement_ops::{
    immediate_sample, measured_operation_kind, observed_sample, peak_metric, scale_label, storage_before_metric, storage_metric,
    unsupported_sample, MeasuredOperationKind,
};
use voxproof_evidence::evidence_01c::scenario_observation::{corruption_tamper_limitation, ScenarioOutcome};
use voxproof_evidence::evidence_01c::types::{
    execution_status_name, fixture_scale_label, fixture_scale_name, open_state_label, recovery_class_label,
    ScenarioExecutionStatus,
};
use voxproof_evidence::evidence_fixture::FixtureScale;
use voxproof_evidence::measurement::MeasurementFixtureScale;
use voxproof_evidence::scenario_contract::{ExpectedOpenState, ExpectedRecoveryClass};

#[test]
fn operations_map_to_what_they_time() {
    assert_eq!(measured_operation_kind("create_session"), MeasuredOperationKind::CreateSession);
    assert_eq!(measured_operation_kind("append_reusable_supersession"), MeasuredOperationKind::AuthoritativeTransition);
    assert_eq!(measured_operation_kind("compaction_where_supported"), MeasuredOperationKind::CompactionWhereSupported);
    assert_eq!(measured_operation_kind("defragment"), MeasuredOperationKind::Unknown);
}

#[test]
fn samples_record_milliseconds_and_unobserved_io() {
    let sample = observed_sample(2_999_999, true, 4096, 100);
    assert_eq!(sample.elapsed_ms, 2);
    assert!(sample.failed);
    assert_eq!(sample.storage_size_before, None);
    assert_eq!(sample.bytes_read.status, "unavailable");
    assert_eq!(sample.bytes_read.reason.as_deref(), Some("not observed"));
    let unsupported = unsupported_sample(1_000_000, 7);
    assert_eq!((unsupported.elapsed_ms, unsupported.peak_memory_bytes, unsupported.failed), (1, 0, false));
}

#[test]
fn metrics_refuse_zero_sentinels() {
    assert_eq!(peak_metric(5).value, Some(5));
    assert_eq!(peak_metric(0).reason.as_deref(), Some("peak rss not observed"));
    assert_eq!(storage_metric(0).reason.as_deref(), Some("zero-byte storage sentinel rejected"));
    let mut a = observed_sample(0, false, 0, 0);
    let mut b = observed_sample(0, false, 0, 0);
    assert_eq!(storage_before_metric(&vec![]).reason.as_deref(), Some("isolated per-sample measurement root"));
    b.storage_size_before = Some(9);
    assert_eq!(storage_before_metric(&vec![a.clone(), b.clone()]).value, Some(9));
    a.storage_size_before = Some(0);
    assert_eq!(storage_before_metric(&vec![a, b]).status, "unavailable");
}

#[test]
fn labels_use_their_stable_spelling() {
    assert_eq!(recovery_class_label(ExpectedRecoveryClass::NoRecovery), "none");
    assert_eq!(recovery_class_label(ExpectedRecoveryClass::SafeAutomaticRecovery), "safe_automatic_recovery");
    assert_eq!(open_state_label(ExpectedOpenState::ReadOnlySalvage), "read_only_salvage");
    assert_eq!(fixture_scale_label(MeasurementFixtureScale::Medium), "medium");
    assert_eq!(fixture_scale_name(MeasurementFixtureScale::Medium), "Medium");
    assert_eq!(scale_label(MeasurementFixtureScale::Stress), "stress");
    assert_eq!(execution_status_name(ScenarioExecutionStatus::Passed), "Passed");
    assert!(FixtureScale::Small.is_implemented());
    assert!(!FixtureScale::Stress.is_implemented());
}

#[test]
fn scenario_outcomes_carry_their_findings() {
    let passed = ScenarioOutcome::passed_with_oracle();
    assert_eq!(passed.status, ScenarioExecutionStatus::Passed);
    assert!(passed.oracle_compare);
    assert_eq!((passed.recovery_class.as_str(), passed.open_state.as_str()), ("none", "normal"));
    let failed = ScenarioOutcome::failed("writer-already-open").with_recovery("last_committed_state");
    assert_eq!(failed.status, ScenarioExecutionStatus::Failed);
    assert_eq!(failed.failure_code.as_deref(), Some("writer-already-open"));
    assert_eq!(failed.recovery_class, "last_committed_state");
    assert_eq!(
        corruption_tamper_limitation("sqlite", "canonical-corruption", "flip-byte"),
        "sqlite: harness tamper `flip-byte` exercises refusal for `canonical-corruption`"
    );
}

fn sample(elapsed_ms: u128, failed: bool, peak: u64, storage_after: u64) -> voxproof_evidence::evidence_01c::types::MeasurementSample {
    observed_sample(elapsed_ms * 1_000_000, failed, peak, storage_after)
}

#[test]
fn aggregates_order_statistics_of_successful_samples() {
    let samples = vec![
        sample(40, false, 100, 10),
        sample(10, false, 300, 30),
        sample(99, true, 9_999, 9_999),
        sample(30, false, 200, 20),
        sample(20, false, 50, 5),
    ];
    assert_eq!(sorted_successful_elapsed(&samples), vec![10, 20, 30, 40]);
    let row = aggregate("append", "v1", "create_session", MeasurementFixtureScale::Small, "linux", &samples, true, 2);
    assert_eq!(row.count, 5);
    assert_eq!(row.failure_count, 1);
    assert_eq!(row.minimum_ms, Some(10));
    assert_eq!(row.median_ms, Some(30));
    assert_eq!(row.p95_ms, Some(30));
    assert_eq!(row.maximum_ms, Some(40));
    assert_eq!(row.peak_memory_bytes.value, Some(300));
    assert_eq!(row.storage_size_after.value, Some(30));
    assert_eq!(row.storage_size_before.reason.as_deref(), Some("isolated per-sample measurement root"));
    assert_eq!(row.bytes_read.reason.as_deref(), Some("not observed"));
    assert_eq!(row.candidate_id, "append");
    assert_eq!(row.platform, "linux");
    let clamped = aggregate("append", "v1", "create_session", MeasurementFixtureScale::Small, "linux", &samples, true, 50);
    assert_eq!(clamped.p95_ms, Some(40));
}

#[test]
fn aggregates_with_no_successful_sample_have_no_latency() {
    let samples = vec![sample(5, true, 7, 7)];
    let row = aggregate("sqlite", "v2", "open_session", MeasurementFixtureScale::Medium, "linux", &samples, true, 0);
    assert_eq!(row.count, 1);
    assert_eq!(row.failure_count, 1);
    assert_eq!(row.minimum_ms, None);
    assert_eq!(row.maximum_ms, None);
    assert_eq!(row.median_ms, None);
    assert_eq!(row.p95_ms, None);
    assert_eq!(row.peak_memory_bytes.reason.as_deref(), Some("peak rss not observed"));
    assert_eq!(row.storage_size_after.reason.as_deref(), Some("zero-byte storage sentinel rejected"));
}

#[test]
fn compaction_without_support_is_an_unsupported_row() {
    let samples = vec![sample(5, false, 7, 7)];
    let row = aggregate("append", "v1", "compaction_where_supported", MeasurementFixtureScale::Small, "linux", &samples, false, 0);
    assert_eq!(row.count, 0);
    assert_eq!(row.peak_memory_bytes.reason.as_deref(), Some("compaction unsupported"));
    assert_eq!(row.median_ms, None);
    assert_eq!(row.storage_size_before.reason.as_deref(), Some("compaction unsupported"));
    let supported = aggregate("sqlite", "v2", "compaction_where_supported", MeasurementFixtureScale::Small, "linux", &samples, true, 0);
    assert_eq!(supported.count, 1);
    assert_eq!(supported.minimum_ms, Some(5));
}

#[test]
fn unknown_and_compaction_operations_sample_at_once() {
    let unknown = immediate_sample("no_such_operation", true, 3_000_000, 10, 20).expect("a sample");
    assert!(unknown.failed);
    assert_eq!(unknown.elapsed_ms, 3);
    assert_eq!(unknown.peak_memory_bytes, 10);
    assert_eq!(unknown.storage_size_after, 20);
    let unsupported = immediate_sample("compaction_where_supported", false, 2_000_000, 10, 20).expect("a sample");
    assert!(!unsupported.failed);
    assert_eq!(unsupported.peak_memory_bytes, 0);
    assert_eq!(unsupported.elapsed_ms, 2);
    let supported = immediate_sample("compaction_where_supported", true, 0, 10, 20).expect("a sample");
    assert!(supported.failed);
    assert!(immediate_sample("create_session", true, 0, 0, 0).is_none());
    assert!(immediate_sample("append_review_decision", false, 0, 0, 0).is_none());
}
