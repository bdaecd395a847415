use vstd::prelude::*;
use crate::candidate_equivalence::CandidateEligibilityStatus;
use crate::evidence_01c::methodology::{MethodologyRecord, MethodologyRecordView};
use crate::measurement::MeasurementFixtureScale;
use crate::model::{opt_duplicate, opt_eq, opt_same, opt_view, vec_duplicate, vec_same, vec_view, SameAs};
use crate::scenario_contract::{ExpectedOpenState, ExpectedRecoveryClass};

verus! {

/// How samples of the two candidates are interleaved.
#[derive(Debug, Clone, Copy, PartialEq, Eq, Structural)]
pub enum InterleavingStrategy {
    AlternatingPerSample,
}

/// The observed status of one scenario run.
#[derive(Debug, Clone, Copy, PartialEq, Eq, Structural)]
pub enum ScenarioExecutionStatus {
    Passed,
    Failed,
    Unsupported,
    NotRun,
}

/// A metric value, or why it is unavailable.
pub struct MetricAvailability<T> {
    pub value: Option<T>,
    pub status: String,
    pub reason: Option<String>,
}

/// The mathematical value of a [`MetricAvailability`].
pub struct MetricAvailabilityView<T> {
    pub value: Option<T>,
    pub status: Seq<char>,
    pub reason: Option<Seq<char>>,
}

impl<T> View for MetricAvailability<T> {
    type V = MetricAvailabilityView<T>;

    open spec fn view(&self) -> MetricAvailabilityView<T> {
        MetricAvailabilityView { value: self.value, status: self.status@, reason: opt_view(self.reason) }
    }
}

impl<T: Copy> Clone for MetricAvailability<T> {
    fn clone(&self) -> (r: Self)
        ensures
            r@ == self@,
    {
        MetricAvailability { value: self.value, status: self.status.clone(), reason: opt_duplicate(&self.reason) }
    }
}

impl SameAs for MetricAvailability<u64> {
    fn duplicate(&self) -> (r: Self) {
        self.clone()
    }

    fn same_as(&self, other: &Self) -> (r: bool) {
        opt_eq_u64(self.value, other.value) && self.status.same_as(&other.status) && opt_same(
            &self.reason,
            &other.reason,
        )
    }
}

fn opt_eq_u64(a: Option<u64>, b: Option<u64>) -> (r: bool)
    ensures
        r == (a == b),
{
    match (a, b) {
        (Some(x), Some(y)) => x == y,
        (None, None) => true,
        _ => false,
    }
}

impl<T> MetricAvailability<T> {
    /// A measured value.
    pub fn available(value: T) -> (r: Self)
        ensures
            r@ == (MetricAvailabilityView { value: Some(value), status: "available"@, reason: None::<Seq<char>> }),
    {
        MetricAvailability { value: Some(value), status: String::from_str("available"), reason: None }
    }

    /// A value that could not be measured, with the reason.
    pub fn unavailable(reason: &str) -> (r: Self)
        ensures
            r@ == (MetricAvailabilityView::<T> { value: None, status: "unavailable"@, reason: Some(reason@) }),
    {
        MetricAvailability { value: None, status: String::from_str("unavailable"), reason: Some(String::from_str(reason)) }
    }
}

/// One key and its text value, in a table kept in ascending key order without repeats.

pub struct TextEntry {
    pub key: String,
    pub value: String,
}

/// The mathematical value of a [`TextEntry`].
pub struct TextEntryView {
    pub key: Seq<char>,
    pub value: Seq<char>,
}

impl View for TextEntry {
    type V = TextEntryView;

    open spec fn view(&self) -> TextEntryView {
        TextEntryView {
            key: self.key@,
            value: self.value@,
        }
    }
}

impl Clone for TextEntry {
    fn clone(&self) -> (r: Self)
        ensures
            r@ == self@,
    {
        TextEntry {
            key: self.key.clone(),
            value: self.value.clone(),
        }
    }
}

impl SameAs for TextEntry {
    fn duplicate(&self) -> (r: Self) {
        self.clone()
    }

    fn same_as(&self, other: &Self) -> (r: bool) {
        self.key.same_as(&other.key)
            && self.value.same_as(&other.value)
    }
}

/// One key and its count, in a table kept in ascending key order without repeats.
pub struct CountEntry {
    pub key: String,
    pub value: u64,
}

/// The mathematical value of a [`CountEntry`].
pub struct CountEntryView {
    pub key: Seq<char>,
    pub value: u64,
}

impl View for CountEntry {
    type V = CountEntryView;

    open spec fn view(&self) -> CountEntryView {
        CountEntryView {
            key: self.key@,
            value: self.value,
        }
    }
}

impl Clone for CountEntry {
    fn clone(&self) -> (r: Self)
        ensures
            r@ == self@,
    {
        CountEntry {
            key: self.key.clone(),
            value: self.value,
        }
    }
}

impl SameAs for CountEntry {
    fn duplicate(&self) -> (r: Self) {
        self.clone()
    }

    fn same_as(&self, other: &Self) -> (r: bool) {
        self.key.same_as(&other.key)
            && self.value == other.value
    }
}

/// A correctness gate that disqualified a candidate.
pub struct CorrectnessDisqualification {
    pub gate: String,
    pub scenario_id: Option<String>,
    pub candidate_id: String,
    pub detail: String,
}

/// The mathematical value of a [`CorrectnessDisqualification`].
pub struct CorrectnessDisqualificationView {
    pub gate: Seq<char>,
    pub scenario_id: Option<Seq<char>>,
    pub candidate_id: Seq<char>,
    pub detail: Seq<char>,
}

impl View for CorrectnessDisqualification {
    type V = CorrectnessDisqualificationView;

    open spec fn view(&self) -> CorrectnessDisqualificationView {
        CorrectnessDisqualificationView {
            gate: self.gate@,
            scenario_id: opt_view(self.scenario_id),
            candidate_id: self.candidate_id@,
            detail: self.detail@,
        }
    }
}

impl Clone for CorrectnessDisqualification {
    fn clone(&self) -> (r: Self)
        ensures
            r@ == self@,
    {
        CorrectnessDisqualification {
            gate: self.gate.clone(),
            scenario_id: opt_duplicate(&self.scenario_id),
            candidate_id: self.candidate_id.clone(),
            detail: self.detail.clone(),
        }
    }
}

impl SameAs for CorrectnessDisqualification {
    fn duplicate(&self) -> (r: Self) {
        self.clone()
    }

    fn same_as(&self, other: &Self) -> (r: bool) {
        self.gate.same_as(&other.gate)
            && opt_same(&self.scenario_id, &other.scenario_id)
            && self.candidate_id.same_as(&other.candidate_id)
            && self.detail.same_as(&other.detail)
    }
}

/// One candidate's observed result of one scenario.
pub struct NormalizedScenarioResult {
    pub scenario_id: String,
    pub scenario_version: u32,
    pub candidate_id: String,
    pub candidate_version: String,
    pub platform: String,
    pub fixture_scale: String,
    pub status: ScenarioExecutionStatus,
    pub oracle_compare: bool,
    pub recovery_class: String,
    pub open_state: String,
    pub failure_code: Option<String>,
    pub elapsed_ms: u128,
    pub correctness_disqualification: Option<String>,
    pub limitations: Vec<String>,
}

/// The mathematical value of a [`NormalizedScenarioResult`].
pub struct NormalizedScenarioResultView {
    pub scenario_id: Seq<char>,
    pub scenario_version: u32,
    pub candidate_id: Seq<char>,
    pub candidate_version: Seq<char>,
    pub platform: Seq<char>,
    pub fixture_scale: Seq<char>,
    pub status: ScenarioExecutionStatus,
    pub oracle_compare: bool,
    pub recovery_class: Seq<char>,
    pub open_state: Seq<char>,
    pub failure_code: Option<Seq<char>>,
    pub elapsed_ms: u128,
    pub correctness_disqualification: Option<Seq<char>>,
    pub limitations: Seq<Seq<char>>,
}

impl View for NormalizedScenarioResult {
    type V = NormalizedScenarioResultView;

    open spec fn view(&self) -> NormalizedScenarioResultView {
        NormalizedScenarioResultView {
            scenario_id: self.scenario_id@,
            scenario_version: self.scenario_version,
            candidate_id: self.candidate_id@,
            candidate_version: self.candidate_version@,
            platform: self.platform@,
            fixture_scale: self.fixture_scale@,
            status: self.status,
            oracle_compare: self.oracle_compare,
            recovery_class: self.recovery_class@,
            open_state: self.open_state@,
            failure_code: opt_view(self.failure_code),
            elapsed_ms: self.elapsed_ms,
            correctness_disqualification: opt_view(self.correctness_disqualification),
            limitations: vec_view(self.limitations@),
        }
    }
}

impl Clone for NormalizedScenarioResult {
    fn clone(&self) -> (r: Self)
        ensures
            r@ == self@,
    {
        NormalizedScenarioResult {
            scenario_id: self.scenario_id.clone(),
            scenario_version: self.scenario_version,
            candidate_id: self.candidate_id.clone(),
            candidate_version: self.candidate_version.clone(),
            platform: self.platform.clone(),
            fixture_scale: self.fixture_scale.clone(),
            status: self.status,
            oracle_compare: self.oracle_compare,
            recovery_class: self.recovery_class.clone(),
            open_state: self.open_state.clone(),
            failure_code: opt_duplicate(&self.failure_code),
            elapsed_ms: self.elapsed_ms,
            correctness_disqualification: opt_duplicate(&self.correctness_disqualification),
            limitations: vec_duplicate(&self.limitations),
        }
    }
}

impl SameAs for NormalizedScenarioResult {
    fn duplicate(&self) -> (r: Self) {
        self.clone()
    }

    fn same_as(&self, other: &Self) -> (r: bool) {
        self.scenario_id.same_as(&other.scenario_id)
            && self.scenario_version == other.scenario_version
            && self.candidate_id.same_as(&other.candidate_id)
            && self.candidate_version.same_as(&other.candidate_version)
            && self.platform.same_as(&other.platform)
            && self.fixture_scale.same_as(&other.fixture_scale)
            && self.status == other.status
            && self.oracle_compare == other.oracle_compare
            && self.recovery_class.same_as(&other.recovery_class)
            && self.open_state.same_as(&other.open_state)
            && opt_same(&self.failure_code, &other.failure_code)
            && self.elapsed_ms == other.elapsed_ms
            && opt_same(&self.correctness_disqualification, &other.correctness_disqualification)
            && vec_same(&self.limitations, &other.limitations)
    }
}

/// One timed sample of an operation.
pub struct MeasurementSample {
    pub elapsed_ms: u128,
    pub peak_memory_bytes: u64,
    pub storage_size_before: Option<u64>,
    pub storage_size_after: u64,
    pub bytes_read: MetricAvailability<u64>,
    pub bytes_written: MetricAvailability<u64>,
    pub failed: bool,
}

/// The mathematical value of a [`MeasurementSample`].
pub struct MeasurementSampleView {
    pub elapsed_ms: u128,
    pub peak_memory_bytes: u64,
    pub storage_size_before: Option<u64>,
    pub storage_size_after: u64,
    pub bytes_read: MetricAvailabilityView<u64>,
    pub bytes_written: MetricAvailabilityView<u64>,
    pub failed: bool,
}

impl View for MeasurementSample {
    type V = MeasurementSampleView;

    open spec fn view(&self) -> MeasurementSampleView {
        MeasurementSampleView {
            elapsed_ms: self.elapsed_ms,
            peak_memory_bytes: self.peak_memory_bytes,
            storage_size_before: self.storage_size_before,
            storage_size_after: self.storage_size_after,
            bytes_read: self.bytes_read@,
            bytes_written: self.bytes_written@,
            failed: self.failed,
        }
    }
}

impl Clone for MeasurementSample {
    fn clone(&self) -> (r: Self)
        ensures
            r@ == self@,
    {
        MeasurementSample {
            elapsed_ms: self.elapsed_ms,
            peak_memory_bytes: self.peak_memory_bytes,
            storage_size_before: self.storage_size_before,
            storage_size_after: self.storage_size_after,
            bytes_read: self.bytes_read.clone(),
            bytes_written: self.bytes_written.clone(),
            failed: self.failed,
        }
    }
}

impl SameAs for MeasurementSample {
    fn duplicate(&self) -> (r: Self) {
        self.clone()
    }

    fn same_as(&self, other: &Self) -> (r: bool) {
        self.elapsed_ms == other.elapsed_ms
            && self.peak_memory_bytes == other.peak_memory_bytes
            && opt_eq_u64(self.storage_size_before, other.storage_size_before)
            && self.storage_size_after == other.storage_size_after
            && self.bytes_read.same_as(&other.bytes_read)
            && self.bytes_written.same_as(&other.bytes_written)
            && self.failed == other.failed
    }
}

/// Whether two latencies are the same, both unavailable or both equal.
fn latency_eq(a: Option<u128>, b: Option<u128>) -> (r: bool)
    ensures
        r == (a == b),
{
    match (a, b) {
        (Some(x), Some(y)) => x == y,
        (None, None) => true,
        _ => false,
    }
}

/// The aggregate of one operation's samples for one candidate. A latency
/// figure is `None`, not zero, where no sample succeeded.
pub struct MeasurementAggregate {
    pub operation: String,
    pub fixture_scale: MeasurementFixtureScale,
    pub candidate_id: String,
    pub candidate_version: String,
    pub platform: String,
    pub count: u32,
    pub minimum_ms: Option<u128>,
    pub median_ms: Option<u128>,
    pub p95_ms: Option<u128>,
    pub maximum_ms: Option<u128>,
    pub failure_count: u32,
    pub peak_memory_bytes: MetricAvailability<u64>,
    pub bytes_read: MetricAvailability<u64>,
    pub bytes_written: MetricAvailability<u64>,
    pub storage_size_before: MetricAvailability<u64>,
    pub storage_size_after: MetricAvailability<u64>,
}

/// The mathematical value of a [`MeasurementAggregate`].
pub struct MeasurementAggregateView {
    pub operation: Seq<char>,
    pub fixture_scale: MeasurementFixtureScale,
    pub candidate_id: Seq<char>,
    pub candidate_version: Seq<char>,
    pub platform: Seq<char>,
    pub count: u32,
    pub minimum_ms: Option<u128>,
    pub median_ms: Option<u128>,
    pub p95_ms: Option<u128>,
    pub maximum_ms: Option<u128>,
    pub failure_count: u32,
    pub peak_memory_bytes: MetricAvailabilityView<u64>,
    pub bytes_read: MetricAvailabilityView<u64>,
    pub bytes_written: MetricAvailabilityView<u64>,
    pub storage_size_before: MetricAvailabilityView<u64>,
    pub storage_size_after: MetricAvailabilityView<u64>,
}

impl View for MeasurementAggregate {
    type V = MeasurementAggregateView;

    open spec fn view(&self) -> MeasurementAggregateView {
        MeasurementAggregateView {
            operation: self.operation@,
            fixture_scale: self.fixture_scale,
            candidate_id: self.candidate_id@,
            candidate_version: self.candidate_version@,
            platform: self.platform@,
            count: self.count,
            minimum_ms: self.minimum_ms,
            median_ms: self.median_ms,
            p95_ms: self.p95_ms,
            maximum_ms: self.maximum_ms,
            failure_count: self.failure_count,
            peak_memory_bytes: self.peak_memory_bytes@,
            bytes_read: self.bytes_read@,
            bytes_written: self.bytes_written@,
            storage_size_before: self.storage_size_before@,
            storage_size_after: self.storage_size_after@,
        }
    }
}

impl Clone for MeasurementAggregate {
    fn clone(&self) -> (r: Self)
        ensures
            r@ == self@,
    {
        MeasurementAggregate {
            operation: self.operation.clone(),
            fixture_scale: self.fixture_scale,
            candidate_id: self.candidate_id.clone(),
            candidate_version: self.candidate_version.clone(),
            platform: self.platform.clone(),
            count: self.count,
            minimum_ms: self.minimum_ms,
            median_ms: self.median_ms,
            p95_ms: self.p95_ms,
            maximum_ms: self.maximum_ms,
            failure_count: self.failure_count,
            peak_memory_bytes: self.peak_memory_bytes.clone(),
            bytes_read: self.bytes_read.clone(),
            bytes_written: self.bytes_written.clone(),
            storage_size_before: self.storage_size_before.clone(),
            storage_size_after: self.storage_size_after.clone(),
        }
    }
}

impl SameAs for MeasurementAggregate {
    fn duplicate(&self) -> (r: Self) {
        self.clone()
    }

    fn same_as(&self, other: &Self) -> (r: bool) {
        self.operation.same_as(&other.operation)
            && self.fixture_scale == other.fixture_scale
            && self.candidate_id.same_as(&other.candidate_id)
            && self.candidate_version.same_as(&other.candidate_version)
            && self.platform.same_as(&other.platform)
            && self.count == other.count
            && latency_eq(self.minimum_ms, other.minimum_ms)
            && latency_eq(self.median_ms, other.median_ms)
            && latency_eq(self.p95_ms, other.p95_ms)
            && latency_eq(self.maximum_ms, other.maximum_ms)
            && self.failure_count == other.failure_count
            && self.peak_memory_bytes.same_as(&other.peak_memory_bytes)
            && self.bytes_read.same_as(&other.bytes_read)
            && self.bytes_written.same_as(&other.bytes_written)
            && self.storage_size_before.same_as(&other.storage_size_before)
            && self.storage_size_after.same_as(&other.storage_size_after)
    }
}

/// Whether a candidate is eligible, and why.
pub struct CandidateEligibilityRecord {
    pub candidate_id: String,
    pub candidate_version: String,
    pub status: CandidateEligibilityStatus,
    pub rationale: String,
}

/// The mathematical value of a [`CandidateEligibilityRecord`].
pub struct CandidateEligibilityRecordView {
    pub candidate_id: Seq<char>,
    pub candidate_version: Seq<char>,
    pub status: CandidateEligibilityStatus,
    pub rationale: Seq<char>,
}

impl View for CandidateEligibilityRecord {
    type V = CandidateEligibilityRecordView;

    open spec fn view(&self) -> CandidateEligibilityRecordView {
        CandidateEligibilityRecordView {
            candidate_id: self.candidate_id@,
            candidate_version: self.candidate_version@,
            status: self.status,
            rationale: self.rationale@,
        }
    }
}

impl Clone for CandidateEligibilityRecord {
    fn clone(&self) -> (r: Self)
        ensures
            r@ == self@,
    {
        CandidateEligibilityRecord {
            candidate_id: self.candidate_id.clone(),
            candidate_version: self.candidate_version.clone(),
            status: self.status,
            rationale: self.rationale.clone(),
        }
    }
}

impl SameAs for CandidateEligibilityRecord {
    fn duplicate(&self) -> (r: Self) {
        self.clone()
    }

    fn same_as(&self, other: &Self) -> (r: bool) {
        self.candidate_id.same_as(&other.candidate_id)
            && self.candidate_version.same_as(&other.candidate_version)
            && self.status == other.status
            && self.rationale.same_as(&other.rationale)
    }
}

/// The host and toolchain a run executed on.
pub struct EnvironmentRecord {
    pub repository_commit: String,
    pub harness_version: String,
    pub platform_label: String,
    pub operating_system: String,
    pub operating_system_version: String,
    pub architecture: String,
    pub execution_environment: String,
    pub filesystem: String,
    pub hardware_summary: String,
    pub rustc_version: String,
    pub dependency_versions: Vec<TextEntry>,
    pub timing_source: String,
    pub start_timestamp: String,
    pub end_timestamp: Option<String>,
    pub configuration: Vec<TextEntry>,
}

/// The mathematical value of a [`EnvironmentRecord`].
pub struct EnvironmentRecordView {
    pub repository_commit: Seq<char>,
    pub harness_version: Seq<char>,
    pub platform_label: Seq<char>,
    pub operating_system: Seq<char>,
    pub operating_system_version: Seq<char>,
    pub architecture: Seq<char>,
    pub execution_environment: Seq<char>,
    pub filesystem: Seq<char>,
    pub hardware_summary: Seq<char>,
    pub rustc_version: Seq<char>,
    pub dependency_versions: Seq<TextEntryView>,
    pub timing_source: Seq<char>,
    pub start_timestamp: Seq<char>,
    pub end_timestamp: Option<Seq<char>>,
    pub configuration: Seq<TextEntryView>,
}

impl View for EnvironmentRecord {
    type V = EnvironmentRecordView;

    open spec fn view(&self) -> EnvironmentRecordView {
        EnvironmentRecordView {
            repository_commit: self.repository_commit@,
            harness_version: self.harness_version@,
            platform_label: self.platform_label@,
            operating_system: self.operating_system@,
            operating_system_version: self.operating_system_version@,
            architecture: self.architecture@,
            execution_environment: self.execution_environment@,
            filesystem: self.filesystem@,
            hardware_summary: self.hardware_summary@,
            rustc_version: self.rustc_version@,
            dependency_versions: vec_view(self.dependency_versions@),
            timing_source: self.timing_source@,
            start_timestamp: self.start_timestamp@,
            end_timestamp: opt_view(self.end_timestamp),
            configuration: vec_view(self.configuration@),
        }
    }
}

impl Clone for EnvironmentRecord {
    fn clone(&self) -> (r: Self)
        ensures
            r@ == self@,
    {
        EnvironmentRecord {
            repository_commit: self.repository_commit.clone(),
            harness_version: self.harness_version.clone(),
            platform_label: self.platform_label.clone(),
            operating_system: self.operating_system.clone(),
            operating_system_version: self.operating_system_version.clone(),
            architecture: self.architecture.clone(),
            execution_environment: self.execution_environment.clone(),
            filesystem: self.filesystem.clone(),
            hardware_summary: self.hardware_summary.clone(),
            rustc_version: self.rustc_version.clone(),
            dependency_versions: vec_duplicate(&self.dependency_versions),
            timing_source: self.timing_source.clone(),
            start_timestamp: self.start_timestamp.clone(),
            end_timestamp: opt_duplicate(&self.end_timestamp),
            configuration: vec_duplicate(&self.configuration),
        }
    }
}

impl SameAs for EnvironmentRecord {
    fn duplicate(&self) -> (r: Self) {
        self.clone()
    }

    fn same_as(&self, other: &Self) -> (r: bool) {
        self.repository_commit.same_as(&other.repository_commit)
            && self.harness_version.same_as(&other.harness_version)
            && self.platform_label.same_as(&other.platform_label)
            && self.operating_system.same_as(&other.operating_system)
            && self.operating_system_version.same_as(&other.operating_system_version)
            && self.architecture.same_as(&other.architecture)
            && self.execution_environment.same_as(&other.execution_environment)
            && self.filesystem.same_as(&other.filesystem)
            && self.hardware_summary.same_as(&other.hardware_summary)
            && self.rustc_version.same_as(&other.rustc_version)
            && vec_same(&self.dependency_versions, &other.dependency_versions)
            && self.timing_source.same_as(&other.timing_source)
            && self.start_timestamp.same_as(&other.start_timestamp)
            && opt_same(&self.end_timestamp, &other.end_timestamp)
            && vec_same(&self.configuration, &other.configuration)
    }
}

/// The medium fixture a run measured, with its dimensions.
pub struct MediumFixtureRecord {
    pub fixture_id: String,
    pub fixture_version: String,
    pub scale: String,
    pub oracle_validated: bool,
    pub dimensions: Vec<CountEntry>,
}

/// The mathematical value of a [`MediumFixtureRecord`].
pub struct MediumFixtureRecordView {
    pub fixture_id: Seq<char>,
    pub fixture_version: Seq<char>,
    pub scale: Seq<char>,
    pub oracle_validated: bool,
    pub dimensions: Seq<CountEntryView>,
}

impl View for MediumFixtureRecord {
    type V = MediumFixtureRecordView;

    open spec fn view(&self) -> MediumFixtureRecordView {
        MediumFixtureRecordView {
            fixture_id: self.fixture_id@,
            fixture_version: self.fixture_version@,
            scale: self.scale@,
            oracle_validated: self.oracle_validated,
            dimensions: vec_view(self.dimensions@),
        }
    }
}

impl Clone for MediumFixtureRecord {
    fn clone(&self) -> (r: Self)
        ensures
            r@ == self@,
    {
        MediumFixtureRecord {
            fixture_id: self.fixture_id.clone(),
            fixture_version: self.fixture_version.clone(),
            scale: self.scale.clone(),
            oracle_validated: self.oracle_validated,
            dimensions: vec_duplicate(&self.dimensions),
        }
    }
}

impl SameAs for MediumFixtureRecord {
    fn duplicate(&self) -> (r: Self) {
        self.clone()
    }

    fn same_as(&self, other: &Self) -> (r: bool) {
        self.fixture_id.same_as(&other.fixture_id)
            && self.fixture_version.same_as(&other.fixture_version)
            && self.scale.same_as(&other.scale)
            && self.oracle_validated == other.oracle_validated
            && vec_same(&self.dimensions, &other.dimensions)
    }
}

/// Everything one candidate's run produced.
pub struct CandidateRunArtifacts {
    pub candidate_id: String,
    pub candidate_version: String,
    pub scenario_results: Vec<NormalizedScenarioResult>,
    pub measurements: Vec<MeasurementAggregate>,
    pub disqualifications: Vec<CorrectnessDisqualification>,
}

/// The mathematical value of a [`CandidateRunArtifacts`].
pub struct CandidateRunArtifactsView {
    pub candidate_id: Seq<char>,
    pub candidate_version: Seq<char>,
    pub scenario_results: Seq<NormalizedScenarioResultView>,
    pub measurements: Seq<MeasurementAggregateView>,
    pub disqualifications: Seq<CorrectnessDisqualificationView>,
}

impl View for CandidateRunArtifacts {
    type V = CandidateRunArtifactsView;

    open spec fn view(&self) -> CandidateRunArtifactsView {
        CandidateRunArtifactsView {
            candidate_id: self.candidate_id@,
            candidate_version: self.candidate_version@,
            scenario_results: vec_view(self.scenario_results@),
            measurements: vec_view(self.measurements@),
            disqualifications: vec_view(self.disqualifications@),
        }
    }
}

impl Clone for CandidateRunArtifacts {
    fn clone(&self) -> (r: Self)
        ensures
            r@ == self@,
    {
        CandidateRunArtifacts {
            candidate_id: self.candidate_id.clone(),
            candidate_version: self.candidate_version.clone(),
            scenario_results: vec_duplicate(&self.scenario_results),
            measurements: vec_duplicate(&self.measurements),
            disqualifications: vec_duplicate(&self.disqualifications),
        }
    }
}

impl SameAs for CandidateRunArtifacts {
    fn duplicate(&self) -> (r: Self) {
        self.clone()
    }

    fn same_as(&self, other: &Self) -> (r: bool) {
        self.candidate_id.same_as(&other.candidate_id)
            && self.candidate_version.same_as(&other.candidate_version)
            && vec_same(&self.scenario_results, &other.scenario_results)
            && vec_same(&self.measurements, &other.measurements)
            && vec_same(&self.disqualifications, &other.disqualifications)
    }
}

/// The within-platform comparison of the two candidates.
pub struct PlatformComparisonSection {
    pub platform: String,
    pub tradeoffs: Vec<String>,
    pub recovery_observations: Vec<String>,
    pub measurement_caveats: Vec<String>,
    pub append_disqualified: bool,
    pub sqlite_disqualified: bool,
}

/// The mathematical value of a [`PlatformComparisonSection`].
pub struct PlatformComparisonSectionView {
    pub platform: Seq<char>,
    pub tradeoffs: Seq<Seq<char>>,
    pub recovery_observations: Seq<Seq<char>>,
    pub measurement_caveats: Seq<Seq<char>>,
    pub append_disqualified: bool,
    pub sqlite_disqualified: bool,
}

impl View for PlatformComparisonSection {
    type V = PlatformComparisonSectionView;

    open spec fn view(&self) -> PlatformComparisonSectionView {
        PlatformComparisonSectionView {
            platform: self.platform@,
            tradeoffs: vec_view(self.tradeoffs@),
            recovery_observations: vec_view(self.recovery_observations@),
            measurement_caveats: vec_view(self.measurement_caveats@),
            append_disqualified: self.append_disqualified,
            sqlite_disqualified: self.sqlite_disqualified,
        }
    }
}

impl Clone for PlatformComparisonSection {
    fn clone(&self) -> (r: Self)
        ensures
            r@ == self@,
    {
        PlatformComparisonSection {
            platform: self.platform.clone(),
            tradeoffs: vec_duplicate(&self.tradeoffs),
            recovery_observations: vec_duplicate(&self.recovery_observations),
            measurement_caveats: vec_duplicate(&self.measurement_caveats),
            append_disqualified: self.append_disqualified,
            sqlite_disqualified: self.sqlite_disqualified,
        }
    }
}

impl SameAs for PlatformComparisonSection {
    fn duplicate(&self) -> (r: Self) {
        self.clone()
    }

    fn same_as(&self, other: &Self) -> (r: bool) {
        self.platform.same_as(&other.platform)
            && vec_same(&self.tradeoffs, &other.tradeoffs)
            && vec_same(&self.recovery_observations, &other.recovery_observations)
            && vec_same(&self.measurement_caveats, &other.measurement_caveats)
            && self.append_disqualified == other.append_disqualified
            && self.sqlite_disqualified == other.sqlite_disqualified
    }
}

/// An earlier evidence record found invalid.
pub struct InvalidPredecessorEvidence {
    pub harness_sha: String,
    pub evidence_record_sha: String,
    pub verdict: String,
}

/// The mathematical value of a [`InvalidPredecessorEvidence`].
pub struct InvalidPredecessorEvidenceView {
    pub harness_sha: Seq<char>,
    pub evidence_record_sha: Seq<char>,
    pub verdict: Seq<char>,
}

impl View for InvalidPredecessorEvidence {
    type V = InvalidPredecessorEvidenceView;

    open spec fn view(&self) -> InvalidPredecessorEvidenceView {
        InvalidPredecessorEvidenceView {
            harness_sha: self.harness_sha@,
            evidence_record_sha: self.evidence_record_sha@,
            verdict: self.verdict@,
        }
    }
}

impl Clone for InvalidPredecessorEvidence {
    fn clone(&self) -> (r: Self)
        ensures
            r@ == self@,
    {
        InvalidPredecessorEvidence {
            harness_sha: self.harness_sha.clone(),
            evidence_record_sha: self.evidence_record_sha.clone(),
            verdict: self.verdict.clone(),
        }
    }
}

impl SameAs for InvalidPredecessorEvidence {
    fn duplicate(&self) -> (r: Self) {
        self.clone()
    }

    fn same_as(&self, other: &Self) -> (r: bool) {
        self.harness_sha.same_as(&other.harness_sha)
            && self.evidence_record_sha.same_as(&other.evidence_record_sha)
            && self.verdict.same_as(&other.verdict)
    }
}

/// The complete comparative evidence package.
pub struct ComparativeEvidencePackage {
    pub work_package_id: String,
    pub harness_semantic_sha: String,
    pub environment: EnvironmentRecord,
    pub methodology: MethodologyRecord,
    pub medium_fixture: MediumFixtureRecord,
    pub eligibility: Vec<CandidateEligibilityRecord>,
    pub append: CandidateRunArtifacts,
    pub sqlite: CandidateRunArtifacts,
    pub comparison: PlatformComparisonSection,
    pub limitations: Vec<String>,
    pub mechanism_comparison_readiness: String,
    pub mechanism_selection_readiness: String,
    pub predecessor_invalid_evidence: Option<InvalidPredecessorEvidence>,
    pub invalid_evidence_chain: Vec<InvalidPredecessorEvidence>,
}

/// The mathematical value of a [`ComparativeEvidencePackage`].
pub struct ComparativeEvidencePackageView {
    pub work_package_id: Seq<char>,
    pub harness_semantic_sha: Seq<char>,
    pub environment: EnvironmentRecordView,
    pub methodology: MethodologyRecordView,
    pub medium_fixture: MediumFixtureRecordView,
    pub eligibility: Seq<CandidateEligibilityRecordView>,
    pub append: CandidateRunArtifactsView,
    pub sqlite: CandidateRunArtifactsView,
    pub comparison: PlatformComparisonSectionView,
    pub limitations: Seq<Seq<char>>,
    pub mechanism_comparison_readiness: Seq<char>,
    pub mechanism_selection_readiness: Seq<char>,
    pub predecessor_invalid_evidence: Option<InvalidPredecessorEvidenceView>,
    pub invalid_evidence_chain: Seq<InvalidPredecessorEvidenceView>,
}

impl View for ComparativeEvidencePackage {
    type V = ComparativeEvidencePackageView;

    open spec fn view(&self) -> ComparativeEvidencePackageView {
        ComparativeEvidencePackageView {
            work_package_id: self.work_package_id@,
            harness_semantic_sha: self.harness_semantic_sha@,
            environment: self.environment@,
            methodology: self.methodology@,
            medium_fixture: self.medium_fixture@,
            eligibility: vec_view(self.eligibility@),
            append: self.append@,
            sqlite: self.sqlite@,
            comparison: self.comparison@,
            limitations: vec_view(self.limitations@),
            mechanism_comparison_readiness: self.mechanism_comparison_readiness@,
            mechanism_selection_readiness: self.mechanism_selection_readiness@,
            predecessor_invalid_evidence: opt_view(self.predecessor_invalid_evidence),
            invalid_evidence_chain: vec_view(self.invalid_evidence_chain@),
        }
    }
}

impl Clone for ComparativeEvidencePackage {
    fn clone(&self) -> (r: Self)
        ensures
            r@ == self@,
    {
        ComparativeEvidencePackage {
            work_package_id: self.work_package_id.clone(),
            harness_semantic_sha: self.harness_semantic_sha.clone(),
            environment: self.environment.clone(),
            methodology: self.methodology.clone(),
            medium_fixture: self.medium_fixture.clone(),
            eligibility: vec_duplicate(&self.eligibility),
            append: self.append.clone(),
            sqlite: self.sqlite.clone(),
            comparison: self.comparison.clone(),
            limitations: vec_duplicate(&self.limitations),
            mechanism_comparison_readiness: self.mechanism_comparison_readiness.clone(),
            mechanism_selection_readiness: self.mechanism_selection_readiness.clone(),
            predecessor_invalid_evidence: opt_duplicate(&self.predecessor_invalid_evidence),
            invalid_evidence_chain: vec_duplicate(&self.invalid_evidence_chain),
        }
    }
}

impl SameAs for ComparativeEvidencePackage {
    fn duplicate(&self) -> (r: Self) {
        self.clone()
    }

    fn same_as(&self, other: &Self) -> (r: bool) {
        self.work_package_id.same_as(&other.work_package_id)
            && self.harness_semantic_sha.same_as(&other.harness_semantic_sha)
            && self.environment.same_as(&other.environment)
            && self.methodology.same_as(&other.methodology)
            && self.medium_fixture.same_as(&other.medium_fixture)
            && vec_same(&self.eligibility, &other.eligibility)
            && self.append.same_as(&other.append)
            && self.sqlite.same_as(&other.sqlite)
            && self.comparison.same_as(&other.comparison)
            && vec_same(&self.limitations, &other.limitations)
            && self.mechanism_comparison_readiness.same_as(&other.mechanism_comparison_readiness)
            && self.mechanism_selection_readiness.same_as(&other.mechanism_selection_readiness)
            && opt_same(&self.predecessor_invalid_evidence, &other.predecessor_invalid_evidence)
            && vec_same(&self.invalid_evidence_chain, &other.invalid_evidence_chain)
    }
}

/// The label of an expected recovery class.
pub open spec fn recovery_class_label_spec(value: ExpectedRecoveryClass) -> Seq<char> {
    match value {
        ExpectedRecoveryClass::NoRecovery => "none"@,
        ExpectedRecoveryClass::LastCommittedState => "last_committed_state"@,
        ExpectedRecoveryClass::SafeAutomaticRecovery => "safe_automatic_recovery"@,
        ExpectedRecoveryClass::ManualReviewRequired => "manual_review_required"@,
        ExpectedRecoveryClass::ReadOnlySalvage => "read_only_salvage"@,
        ExpectedRecoveryClass::Unrecoverable => "unrecoverable"@,
        ExpectedRecoveryClass::UnsupportedVersion => "unsupported_version"@,
    }
}

/// The label of an expected recovery class.
pub fn recovery_class_label(value: ExpectedRecoveryClass) -> (r: String)
    ensures
        r@ == recovery_class_label_spec(value),
{
    let text = match value {
        ExpectedRecoveryClass::NoRecovery => "none",
        ExpectedRecoveryClass::LastCommittedState => "last_committed_state",
        ExpectedRecoveryClass::SafeAutomaticRecovery => "safe_automatic_recovery",
        ExpectedRecoveryClass::ManualReviewRequired => "manual_review_required",
        ExpectedRecoveryClass::ReadOnlySalvage => "read_only_salvage",
        ExpectedRecoveryClass::Unrecoverable => "unrecoverable",
        ExpectedRecoveryClass::UnsupportedVersion => "unsupported_version",
    };
    String::from_str(text)
}

/// Distinct recovery classes have distinct labels, so a label names its class.
pub proof fn law_recovery_class_labels_distinct(a: ExpectedRecoveryClass, b: ExpectedRecoveryClass)
    ensures
        recovery_class_label_spec(a) == recovery_class_label_spec(b) ==> a == b,
{
    reveal_strlit("none");
    reveal_strlit("last_committed_state");
    reveal_strlit("safe_automatic_recovery");
    reveal_strlit("manual_review_required");
    reveal_strlit("read_only_salvage");
    reveal_strlit("unrecoverable");
    reveal_strlit("unsupported_version");
    if recovery_class_label_spec(a) == recovery_class_label_spec(b) {
        assert(recovery_class_label_spec(a).len() == recovery_class_label_spec(b).len());
    }
}

/// The label of an expected open state.
pub open spec fn open_state_label_spec(value: ExpectedOpenState) -> Seq<char> {
    match value {
        ExpectedOpenState::Normal => "normal"@,
        ExpectedOpenState::UnsupportedVersion => "unsupported_version"@,
        ExpectedOpenState::ReadOnlySalvage => "read_only_salvage"@,
        ExpectedOpenState::Unrecoverable => "unrecoverable"@,
    }
}

/// The label of an expected open state.
pub fn open_state_label(value: ExpectedOpenState) -> (r: String)
    ensures
        r@ == open_state_label_spec(value),
{
    let text = match value {
        ExpectedOpenState::Normal => "normal",
        ExpectedOpenState::UnsupportedVersion => "unsupported_version",
        ExpectedOpenState::ReadOnlySalvage => "read_only_salvage",
        ExpectedOpenState::Unrecoverable => "unrecoverable",
    };
    String::from_str(text)
}

/// The label of a fixture scale.
pub open spec fn fixture_scale_label_spec(value: MeasurementFixtureScale) -> Seq<char> {
    match value {
        MeasurementFixtureScale::Small => "small"@,
        MeasurementFixtureScale::Medium => "medium"@,
        MeasurementFixtureScale::Stress => "stress"@,
    }
}

/// The label of a fixture scale.
pub fn fixture_scale_label(value: MeasurementFixtureScale) -> (r: String)
    ensures
        r@ == fixture_scale_label_spec(value),
{
    let text = match value {
        MeasurementFixtureScale::Small => "small",
        MeasurementFixtureScale::Medium => "medium",
        MeasurementFixtureScale::Stress => "stress",
    };
    String::from_str(text)
}

/// The name of a fixture scale, as reports print it.
pub open spec fn fixture_scale_name_spec(value: MeasurementFixtureScale) -> Seq<char> {
    match value {
        MeasurementFixtureScale::Small => "Small"@,
        MeasurementFixtureScale::Medium => "Medium"@,
        MeasurementFixtureScale::Stress => "Stress"@,
    }
}

/// The name of a fixture scale, as reports print it.
pub fn fixture_scale_name(value: MeasurementFixtureScale) -> (r: String)
    ensures
        r@ == fixture_scale_name_spec(value),
{
    let text = match value {
        MeasurementFixtureScale::Small => "Small",
        MeasurementFixtureScale::Medium => "Medium",
        MeasurementFixtureScale::Stress => "Stress",
    };
    String::from_str(text)
}

/// The name of a scenario execution status, as reports print it.
pub open spec fn execution_status_name_spec(value: ScenarioExecutionStatus) -> Seq<char> {
    match value {
        ScenarioExecutionStatus::Passed => "Passed"@,
        ScenarioExecutionStatus::Failed => "Failed"@,
        ScenarioExecutionStatus::Unsupported => "Unsupported"@,
        ScenarioExecutionStatus::NotRun => "NotRun"@,
    }
}

/// The name of a scenario execution status, as reports print it.
pub fn execution_status_name(value: ScenarioExecutionStatus) -> (r: String)
    ensures
        r@ == execution_status_name_spec(value),
{
    let text = match value {
        ScenarioExecutionStatus::Passed => "Passed",
        ScenarioExecutionStatus::Failed => "Failed",
        ScenarioExecutionStatus::Unsupported => "Unsupported",
        ScenarioExecutionStatus::NotRun => "NotRun",
    };
    String::from_str(text)
}

} // verus!
