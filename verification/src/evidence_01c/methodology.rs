use vstd::prelude::*;
use crate::evidence_01c::types::InterleavingStrategy;
use crate::measurement::MEASUREMENT_CONTRACT_VERSION;
use crate::model::{opt_duplicate, opt_eq, opt_same, opt_view, vec_duplicate, vec_same, vec_view, SameAs, CURRENT_CONTRACT_FIXTURE_ID, CURRENT_CONTRACT_FIXTURE_VERSION};
use crate::oracle::CURRENT_CONTRACT_ORACLE_VERSION;
use crate::scenario_contract::SCENARIO_CONTRACT_VERSION;

verus! {

/// The version of the comparative evidence harness.
pub const EVIDENCE_01C_HARNESS_VERSION: &'static str = "gate4-01c-evidence-v1";

/// The identity of the frozen methodology.
pub const METHODOLOGY_FREEZE_ID: &'static str = "VP-GATE4-EVIDENCE-COMPLETION-01C-methodology-freeze-v1";

/// How samples of the two candidates are interleaved.
pub const INTERLEAVING_STRATEGY: InterleavingStrategy = InterleavingStrategy::AlternatingPerSample;

/// The methodology, frozen before any comparative measurement runs.
pub struct MethodologyRecord {
    pub freeze_id: String,
    pub harness_version: String,
    pub work_package_id: String,
    pub candidates_order: Vec<String>,
    pub fixture_id: String,
    pub fixture_version: String,
    pub oracle_version: String,
    pub scenario_contract_version: String,
    pub measurement_contract_version: String,
    pub small_fixture: String,
    pub medium_fixture: String,
    pub stress_fixture_policy: String,
    pub scenario_execution_order: String,
    pub correctness_gate_order: String,
    pub measurement_operation_order: String,
    pub warmup_strategy: String,
    pub sample_interleaving_strategy: String,
    pub timing_source: String,
    pub peak_memory_strategy: String,
    pub bytes_read_write_strategy: String,
    pub storage_size_strategy: String,
    pub environment_metadata_strategy: String,
    pub macos_strategy: String,
    pub windows_strategy: String,
    pub comparison_algorithm: String,
    pub missing_metric_policy: String,
    pub capability_dependent_policy: String,
    pub platform_pooling_performed: bool,
}

/// The mathematical value of a [`MethodologyRecord`].
pub struct MethodologyRecordView {
    pub freeze_id: Seq<char>,
    pub harness_version: Seq<char>,
    pub work_package_id: Seq<char>,
    pub candidates_order: Seq<Seq<char>>,
    pub fixture_id: Seq<char>,
    pub fixture_version: Seq<char>,
    pub oracle_version: Seq<char>,
    pub scenario_contract_version: Seq<char>,
    pub measurement_contract_version: Seq<char>,
    pub small_fixture: Seq<char>,
    pub medium_fixture: Seq<char>,
    pub stress_fixture_policy: Seq<char>,
    pub scenario_execution_order: Seq<char>,
    pub correctness_gate_order: Seq<char>,
    pub measurement_operation_order: Seq<char>,
    pub warmup_strategy: Seq<char>,
    pub sample_interleaving_strategy: Seq<char>,
    pub timing_source: Seq<char>,
    pub peak_memory_strategy: Seq<char>,
    pub bytes_read_write_strategy: Seq<char>,
    pub storage_size_strategy: Seq<char>,
    pub environment_metadata_strategy: Seq<char>,
    pub macos_strategy: Seq<char>,
    pub windows_strategy: Seq<char>,
    pub comparison_algorithm: Seq<char>,
    pub missing_metric_policy: Seq<char>,
    pub capability_dependent_policy: Seq<char>,
    pub platform_pooling_performed: bool,
}

impl View for MethodologyRecord {
    type V = MethodologyRecordView;

    open spec fn view(&self) -> MethodologyRecordView {
        MethodologyRecordView {
            freeze_id: self.freeze_id@,
            harness_version: self.harness_version@,
            work_package_id: self.work_package_id@,
            candidates_order: vec_view(self.candidates_order@),
            fixture_id: self.fixture_id@,
            fixture_version: self.fixture_version@,
            oracle_version: self.oracle_version@,
            scenario_contract_version: self.scenario_contract_version@,
            measurement_contract_version: self.measurement_contract_version@,
            small_fixture: self.small_fixture@,
            medium_fixture: self.medium_fixture@,
            stress_fixture_policy: self.stress_fixture_policy@,
            scenario_execution_order: self.scenario_execution_order@,
            correctness_gate_order: self.correctness_gate_order@,
            measurement_operation_order: self.measurement_operation_order@,
            warmup_strategy: self.warmup_strategy@,
            sample_interleaving_strategy: self.sample_interleaving_strategy@,
            timing_source: self.timing_source@,
            peak_memory_strategy: self.peak_memory_strategy@,
            bytes_read_write_strategy: self.bytes_read_write_strategy@,
            storage_size_strategy: self.storage_size_strategy@,
            environment_metadata_strategy: self.environment_metadata_strategy@,
            macos_strategy: self.macos_strategy@,
            windows_strategy: self.windows_strategy@,
            comparison_algorithm: self.comparison_algorithm@,
            missing_metric_policy: self.missing_metric_policy@,
            capability_dependent_policy: self.capability_dependent_policy@,
            platform_pooling_performed: self.platform_pooling_performed,
        }
    }
}

impl Clone for MethodologyRecord {
    fn clone(&self) -> (r: Self)
        ensures
            r@ == self@,
    {
        MethodologyRecord {
            freeze_id: self.freeze_id.clone(),
            harness_version: self.harness_version.clone(),
            work_package_id: self.work_package_id.clone(),
            candidates_order: vec_duplicate(&self.candidates_order),
            fixture_id: self.fixture_id.clone(),
            fixture_version: self.fixture_version.clone(),
            oracle_version: self.oracle_version.clone(),
            scenario_contract_version: self.scenario_contract_version.clone(),
            measurement_contract_version: self.measurement_contract_version.clone(),
            small_fixture: self.small_fixture.clone(),
            medium_fixture: self.medium_fixture.clone(),
            stress_fixture_policy: self.stress_fixture_policy.clone(),
            scenario_execution_order: self.scenario_execution_order.clone(),
            correctness_gate_order: self.correctness_gate_order.clone(),
            measurement_operation_order: self.measurement_operation_order.clone(),
            warmup_strategy: self.warmup_strategy.clone(),
            sample_interleaving_strategy: self.sample_interleaving_strategy.clone(),
            timing_source: self.timing_source.clone(),
            peak_memory_strategy: self.peak_memory_strategy.clone(),
            bytes_read_write_strategy: self.bytes_read_write_strategy.clone(),
            storage_size_strategy: self.storage_size_strategy.clone(),
            environment_metadata_strategy: self.environment_metadata_strategy.clone(),
            macos_strategy: self.macos_strategy.clone(),
            windows_strategy: self.windows_strategy.clone(),
            comparison_algorithm: self.comparison_algorithm.clone(),
            missing_metric_policy: self.missing_metric_policy.clone(),
            capability_dependent_policy: self.capability_dependent_policy.clone(),
            platform_pooling_performed: self.platform_pooling_performed,
        }
    }
}

impl SameAs for MethodologyRecord {
    fn duplicate(&self) -> (r: Self) {
        self.clone()
    }

    fn same_as(&self, other: &Self) -> (r: bool) {
        self.freeze_id.same_as(&other.freeze_id)
            && self.harness_version.same_as(&other.harness_version)
            && self.work_package_id.same_as(&other.work_package_id)
            && vec_same(&self.candidates_order, &other.candidates_order)
            && self.fixture_id.same_as(&other.fixture_id)
            && self.fixture_version.same_as(&other.fixture_version)
            && self.oracle_version.same_as(&other.oracle_version)
            && self.scenario_contract_version.same_as(&other.scenario_contract_version)
            && self.measurement_contract_version.same_as(&other.measurement_contract_version)
            && self.small_fixture.same_as(&other.small_fixture)
            && self.medium_fixture.same_as(&other.medium_fixture)
            && self.stress_fixture_policy.same_as(&other.stress_fixture_policy)
            && self.scenario_execution_order.same_as(&other.scenario_execution_order)
            && self.correctness_gate_order.same_as(&other.correctness_gate_order)
            && self.measurement_operation_order.same_as(&other.measurement_operation_order)
            && self.warmup_strategy.same_as(&other.warmup_strategy)
            && self.sample_interleaving_strategy.same_as(&other.sample_interleaving_strategy)
            && self.timing_source.same_as(&other.timing_source)
            && self.peak_memory_strategy.same_as(&other.peak_memory_strategy)
            && self.bytes_read_write_strategy.same_as(&other.bytes_read_write_strategy)
            && self.storage_size_strategy.same_as(&other.storage_size_strategy)
            && self.environment_metadata_strategy.same_as(&other.environment_metadata_strategy)
            && self.macos_strategy.same_as(&other.macos_strategy)
            && self.windows_strategy.same_as(&other.windows_strategy)
            && self.comparison_algorithm.same_as(&other.comparison_algorithm)
            && self.missing_metric_policy.same_as(&other.missing_metric_policy)
            && self.capability_dependent_policy.same_as(&other.capability_dependent_policy)
            && self.platform_pooling_performed == other.platform_pooling_performed
    }
}

/// The frozen methodology.
pub open spec fn methodology_spec() -> MethodologyRecordView {
    MethodologyRecordView {
        freeze_id: "VP-GATE4-EVIDENCE-COMPLETION-01C-methodology-freeze-v1"@,
        harness_version: "gate4-01c-evidence-v1"@,
        work_package_id: "VP-GATE4-EVIDENCE-COMPLETION-01C"@,
        candidates_order: seq!["current-contract-append-authoritative-candidate"@, "current-contract-sqlite-authoritative-candidate"@],
        fixture_id: CURRENT_CONTRACT_FIXTURE_ID@,
        fixture_version: CURRENT_CONTRACT_FIXTURE_VERSION@,
        oracle_version: CURRENT_CONTRACT_ORACLE_VERSION@,
        scenario_contract_version: SCENARIO_CONTRACT_VERSION@,
        measurement_contract_version: MEASUREMENT_CONTRACT_VERSION@,
        small_fixture: "golden_small promoted_active variant"@,
        medium_fixture: "scaled_multi_lifecycle_current_contract_v3"@,
        stress_fixture_policy: "not_implemented_record_limitation"@,
        scenario_execution_order: "scenario_contract_v3 declaration order"@,
        correctness_gate_order: "all required scenarios before any performance samples"@,
        measurement_operation_order: "comparative_measurement_contract declaration order"@,
        warmup_strategy: "contract warmup_count per operation before interleaved samples"@,
        sample_interleaving_strategy: "alternating_per_sample: even sample append-first, odd sqlite-first"@,
        timing_source: "std::time::Instant elapsed wall clock per operation"@,
        peak_memory_strategy: "process peak RSS via getrusage (unix) or GetProcessMemoryInfo PeakWorkingSetSize (windows)"@,
        bytes_read_write_strategy: "unavailable unless candidate-neutral filesystem observation exists"@,
        storage_size_strategy: "recursive byte sum of candidate session storage directory"@,
        environment_metadata_strategy: "capture_environment at run start from live host"@,
        macos_strategy: "native host execution via persistence_evidence_01c_run"@,
        windows_strategy: "github-actions windows-latest workflow step"@,
        comparison_algorithm: "paired within-platform tradeoff report without cross-platform pooling"@,
        missing_metric_policy: "explicit unavailable sentinel; never encode as zero"@,
        capability_dependent_policy: "unsupported capability yields ScenarioExecutionStatus::Unsupported with limitation"@,
        platform_pooling_performed: false,
    }
}

/// The frozen methodology.
pub fn methodology_record() -> (r: MethodologyRecord)
    ensures
        r@ == methodology_spec(),
{
    let mut cands: Vec<String> = Vec::new();
    cands.push(String::from_str("current-contract-append-authoritative-candidate"));
    cands.push(String::from_str("current-contract-sqlite-authoritative-candidate"));
    proof {
        assert(vec_view(cands@) =~= seq!["current-contract-append-authoritative-candidate"@, "current-contract-sqlite-authoritative-candidate"@]);
    }
    MethodologyRecord {
        freeze_id: String::from_str("VP-GATE4-EVIDENCE-COMPLETION-01C-methodology-freeze-v1"),
        harness_version: String::from_str("gate4-01c-evidence-v1"),
        work_package_id: String::from_str("VP-GATE4-EVIDENCE-COMPLETION-01C"),
        candidates_order: cands,
        fixture_id: String::from_str(CURRENT_CONTRACT_FIXTURE_ID),
        fixture_version: String::from_str(CURRENT_CONTRACT_FIXTURE_VERSION),
        oracle_version: String::from_str(CURRENT_CONTRACT_ORACLE_VERSION),
        scenario_contract_version: String::from_str(SCENARIO_CONTRACT_VERSION),
        measurement_contract_version: String::from_str(MEASUREMENT_CONTRACT_VERSION),
        small_fixture: String::from_str("golden_small promoted_active variant"),
        medium_fixture: String::from_str("scaled_multi_lifecycle_current_contract_v3"),
        stress_fixture_policy: String::from_str("not_implemented_record_limitation"),
        scenario_execution_order: String::from_str("scenario_contract_v3 declaration order"),
        correctness_gate_order: String::from_str("all required scenarios before any performance samples"),
        measurement_operation_order: String::from_str("comparative_measurement_contract declaration order"),
        warmup_strategy: String::from_str("contract warmup_count per operation before interleaved samples"),
        sample_interleaving_strategy: String::from_str("alternating_per_sample: even sample append-first, odd sqlite-first"),
        timing_source: String::from_str("std::time::Instant elapsed wall clock per operation"),
        peak_memory_strategy: String::from_str("process peak RSS via getrusage (unix) or GetProcessMemoryInfo PeakWorkingSetSize (windows)"),
        bytes_read_write_strategy: String::from_str("unavailable unless candidate-neutral filesystem observation exists"),
        storage_size_strategy: String::from_str("recursive byte sum of candidate session storage directory"),
        environment_metadata_strategy: String::from_str("capture_environment at run start from live host"),
        macos_strategy: String::from_str("native host execution via persistence_evidence_01c_run"),
        windows_strategy: String::from_str("github-actions windows-latest workflow step"),
        comparison_algorithm: String::from_str("paired within-platform tradeoff report without cross-platform pooling"),
        missing_metric_policy: String::from_str("explicit unavailable sentinel; never encode as zero"),
        capability_dependent_policy: String::from_str("unsupported capability yields ScenarioExecutionStatus::Unsupported with limitation"),
        platform_pooling_performed: false,
    }
}

} // verus!
