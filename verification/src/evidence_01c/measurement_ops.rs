use vstd::prelude::*;
use crate::evidence_01c::types::{
    fixture_scale_label, fixture_scale_label_spec, MeasurementSample, MeasurementSampleView, MetricAvailability,
    MetricAvailabilityView,
};
use crate::measurement::MeasurementFixtureScale;
use crate::model::vec_view;
use crate::text::str_eq;

verus! {

/// The prefix of the line a measurement subprocess reports its sample on.
pub const MEASURE_RESULT_PREFIX: &'static str = "VOXPROOF_MEASURE:";

/// What a measured operation times, once its fixture session exists.
#[derive(Debug, Clone, Copy, PartialEq, Eq, Structural)]
pub enum MeasuredOperationKind {
    CreateSession,
    OpenCold,
    OpenWarm,
    AuthoritativeTransition,
    Close,
    ReopenAndValidate,
    SemanticDuplication,
    DerivedRebuild,
    CompactionWhereSupported,
    Unknown,
}

/// What a measured operation times.
pub open spec fn measured_operation_kind_spec(operation: Seq<char>) -> MeasuredOperationKind {
    if operation == "create_session"@ {
        MeasuredOperationKind::CreateSession
    } else if operation == "open_cold"@ {
        MeasuredOperationKind::OpenCold
    } else if operation == "open_warm"@ {
        MeasuredOperationKind::OpenWarm
    } else if operation == "append_review_decision"@ || operation == "append_manual_replacement"@ || operation
        == "append_reusable_promotion"@ || operation == "append_reusable_revocation"@ || operation
        == "append_reusable_supersession"@ {
        MeasuredOperationKind::AuthoritativeTransition
    } else if operation == "close"@ {
        MeasuredOperationKind::Close
    } else if operation == "reopen_and_validate"@ {
        MeasuredOperationKind::ReopenAndValidate
    } else if operation == "semantic_duplication"@ {
        MeasuredOperationKind::SemanticDuplication
    } else if operation == "derived_rebuild"@ {
        MeasuredOperationKind::DerivedRebuild
    } else if operation == "compaction_where_supported"@ {
        MeasuredOperationKind::CompactionWhereSupported
    } else {
        MeasuredOperationKind::Unknown
    }
}

/// What a measured operation times; the runner performs its steps.
pub fn measured_operation_kind(operation: &str) -> (r: MeasuredOperationKind)
    ensures
        r == measured_operation_kind_spec(operation@),
{
    if str_eq(operation, "create_session") {
        MeasuredOperationKind::CreateSession
    } else if str_eq(operation, "open_cold") {
        MeasuredOperationKind::OpenCold
    } else if str_eq(operation, "open_warm") {
        MeasuredOperationKind::OpenWarm
    } else if str_eq(operation, "append_review_decision") || str_eq(operation, "append_manual_replacement")
        || str_eq(operation, "append_reusable_promotion") || str_eq(operation, "append_reusable_revocation")
        || str_eq(operation, "append_reusable_supersession") {
        MeasuredOperationKind::AuthoritativeTransition
    } else if str_eq(operation, "close") {
        MeasuredOperationKind::Close
    } else if str_eq(operation, "reopen_and_validate") {
        MeasuredOperationKind::ReopenAndValidate
    } else if str_eq(operation, "semantic_duplication") {
        MeasuredOperationKind::SemanticDuplication
    } else if str_eq(operation, "derived_rebuild") {
        MeasuredOperationKind::DerivedRebuild
    } else if str_eq(operation, "compaction_where_supported") {
        MeasuredOperationKind::CompactionWhereSupported
    } else {
        MeasuredOperationKind::Unknown
    }
}

/// A sample as observed: whole milliseconds of the elapsed time, the peak
/// memory and the storage size after; read and write volumes not observed.
pub open spec fn observed_sample_spec(
    elapsed_nanos: u128,
    failed: bool,
    peak_memory_bytes: u64,
    storage_size_after: u64,
) -> MeasurementSampleView {
    MeasurementSampleView {
        elapsed_ms: (elapsed_nanos / 1_000_000) as u128,
        peak_memory_bytes,
        storage_size_before: None,
        storage_size_after,
        bytes_read: MetricAvailabilityView { value: None, status: "unavailable"@, reason: Some("not observed"@) },
        bytes_written: MetricAvailabilityView { value: None, status: "unavailable"@, reason: Some("not observed"@) },
        failed,
    }
}

/// The sample of one timed run of an operation.
pub fn observed_sample(elapsed_nanos: u128, failed: bool, peak_memory_bytes: u64, storage_size_after: u64) -> (r:
    MeasurementSample)
    ensures
        r@ == observed_sample_spec(elapsed_nanos, failed, peak_memory_bytes, storage_size_after),
{
    MeasurementSample {
        elapsed_ms: elapsed_nanos / 1_000_000,
        peak_memory_bytes,
        storage_size_before: None,
        storage_size_after,
        bytes_read: MetricAvailability::unavailable("not observed"),
        bytes_written: MetricAvailability::unavailable("not observed"),
        failed,
    }
}

/// The sample of an operation the candidate does not support: not failed, no peak memory.
pub fn unsupported_sample(elapsed_nanos: u128, storage_size_after: u64) -> (r: MeasurementSample)
    ensures
        r@ == observed_sample_spec(elapsed_nanos, false, 0, storage_size_after),
{
    observed_sample(elapsed_nanos, false, 0, storage_size_after)
}

/// The sample an operation yields before any of its steps run, if any: an
/// unknown operation fails at once; compaction, which no candidate measures,
/// gives an unsupported sample (not failed, no peak memory) where the
/// candidate does not support it and a failed sample where it does; every
/// other operation runs its steps (`None`).
pub open spec fn immediate_sample_spec(
    operation: Seq<char>,
    compaction_supported: bool,
    elapsed_nanos: u128,
    peak_memory_bytes: u64,
    storage_size_after: u64,
) -> Option<MeasurementSampleView> {
    match measured_operation_kind_spec(operation) {
        MeasuredOperationKind::Unknown => Some(
            observed_sample_spec(elapsed_nanos, true, peak_memory_bytes, storage_size_after),
        ),
        MeasuredOperationKind::CompactionWhereSupported => if compaction_supported {
            Some(observed_sample_spec(elapsed_nanos, true, peak_memory_bytes, storage_size_after))
        } else {
            Some(observed_sample_spec(elapsed_nanos, false, 0, storage_size_after))
        },
        _ => None,
    }
}

/// The sample an operation yields before any of its steps run, if any.
pub fn immediate_sample(
    operation: &str,
    compaction_supported: bool,
    elapsed_nanos: u128,
    peak_memory_bytes: u64,
    storage_size_after: u64,
) -> (r: Option<MeasurementSample>)
    ensures
        match r {
            Some(s) => immediate_sample_spec(
                operation@,
                compaction_supported,
                elapsed_nanos,
                peak_memory_bytes,
                storage_size_after,
            ) == Some(s@),
            None => immediate_sample_spec(
                operation@,
                compaction_supported,
                elapsed_nanos,
                peak_memory_bytes,
                storage_size_after,
            ) is None,
        },
{
    match measured_operation_kind(operation) {
        MeasuredOperationKind::Unknown => Some(
            observed_sample(elapsed_nanos, true, peak_memory_bytes, storage_size_after),
        ),
        MeasuredOperationKind::CompactionWhereSupported => if compaction_supported {
            Some(observed_sample(elapsed_nanos, true, peak_memory_bytes, storage_size_after))
        } else {
            Some(unsupported_sample(elapsed_nanos, storage_size_after))
        },
        _ => None,
    }
}

/// A peak-memory metric: available when positive.
pub open spec fn peak_metric_spec(bytes: u64) -> MetricAvailabilityView<u64> {
    if bytes > 0 {
        MetricAvailabilityView { value: Some(bytes), status: "available"@, reason: None }
    } else {
        MetricAvailabilityView { value: None, status: "unavailable"@, reason: Some("peak rss not observed"@) }
    }
}

/// A peak-memory metric: available when positive.
pub fn peak_metric(bytes: u64) -> (r: MetricAvailability<u64>)
    ensures
        r@ == peak_metric_spec(bytes),
{
    if bytes > 0 {
        MetricAvailability::available(bytes)
    } else {
        MetricAvailability::unavailable("peak rss not observed")
    }
}

/// A storage-size metric: available when positive; zero is a rejected sentinel.
pub open spec fn storage_metric_spec(bytes: u64) -> MetricAvailabilityView<u64> {
    if bytes > 0 {
        MetricAvailabilityView { value: Some(bytes), status: "available"@, reason: None }
    } else {
        MetricAvailabilityView {
            value: None,
            status: "unavailable"@,
            reason: Some("zero-byte storage sentinel rejected"@),
        }
    }
}

/// A storage-size metric: available when positive; zero is a rejected sentinel.
pub fn storage_metric(bytes: u64) -> (r: MetricAvailability<u64>)
    ensures
        r@ == storage_metric_spec(bytes),
{
    if bytes > 0 {
        MetricAvailability::available(bytes)
    } else {
        MetricAvailability::unavailable("zero-byte storage sentinel rejected")
    }
}

/// The first storage size observed before a sample, if any.
pub open spec fn first_storage_before(samples: Seq<MeasurementSampleView>) -> Option<u64>
    decreases samples.len(),
{
    if samples.len() == 0 {
        None
    } else {
        match samples[0].storage_size_before {
            Some(b) => Some(b),
            None => first_storage_before(samples.drop_first()),
        }
    }
}

/// The storage size before an operation: unavailable where every sample ran
/// in its own isolated root, otherwise the first observed size.
pub open spec fn storage_before_metric_spec(samples: Seq<MeasurementSampleView>) -> MetricAvailabilityView<u64> {
    match first_storage_before(samples) {
        None => MetricAvailabilityView {
            value: None,
            status: "unavailable"@,
            reason: Some("isolated per-sample measurement root"@),
        },
        Some(b) => storage_metric_spec(b),
    }
}

/// The storage size before an operation, over its samples.
pub fn storage_before_metric(samples: &Vec<MeasurementSample>) -> (r: MetricAvailability<u64>)
    ensures
        r@ == storage_before_metric_spec(vec_view(samples@)),
{
    let ghost sv = vec_view(samples@);
    let mut k: usize = 0;
    proof {
        assert(sv.skip(0) =~= sv);
    }
    while k < samples.len()
        invariant
            k <= samples.len(),
            sv == vec_view(samples@),
            first_storage_before(sv) == first_storage_before(sv.skip(k as int)),
        decreases samples.len() - k,
    {
        proof {
            assert(sv.skip(k as int)[0] == sv[k as int]);
            assert(sv.skip(k as int).drop_first() =~= sv.skip(k + 1));
            assert(sv[k as int] == samples@[k as int]@);
        }
        match samples[k].storage_size_before {
            Some(b) => {
                return storage_metric(b);
            },
            None => {},
        }
        k = k + 1;
    }
    proof {
        assert(sv.skip(k as int).len() == 0);
    }
    MetricAvailability::unavailable("isolated per-sample measurement root")
}

/// The label of a fixture scale.
pub fn scale_label(scale: MeasurementFixtureScale) -> (r: String)
    ensures
        r@ == fixture_scale_label_spec(scale),
{
    fixture_scale_label(scale)
}

} // verus!
