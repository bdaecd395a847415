use vstd::prelude::*;
use crate::model::{opt_duplicate, opt_eq, opt_same, opt_view, vec_duplicate, vec_same, vec_view, SameAs, CURRENT_CONTRACT_FIXTURE_ID, CURRENT_CONTRACT_FIXTURE_VERSION};

verus! {

/// The version of the comparative measurement contract.
pub const MEASUREMENT_CONTRACT_VERSION: &'static str = "1";

/// The size of fixture a measurement runs on.
#[derive(Debug, Clone, Copy, PartialEq, Eq, Structural)]
pub enum MeasurementFixtureScale {
    Small,
    Medium,
    Stress,
}

/// One measured operation: the fixture scales it runs on and its sample and warm-up counts.
pub struct MeasurementOperationSpec {
    pub operation: String,
    pub fixture_scales: Vec<MeasurementFixtureScale>,
    pub sample_count: u32,
    pub warmup_count: u32,
}

/// The mathematical value of a [`MeasurementOperationSpec`].
pub struct MeasurementOperationSpecView {
    pub operation: Seq<char>,
    pub fixture_scales: Seq<MeasurementFixtureScale>,
    pub sample_count: u32,
    pub warmup_count: u32,
}

impl View for MeasurementOperationSpec {
    type V = MeasurementOperationSpecView;

    open spec fn view(&self) -> MeasurementOperationSpecView {
        MeasurementOperationSpecView {
            operation: self.operation@,
            fixture_scales: self.fixture_scales@,
            sample_count: self.sample_count,
            warmup_count: self.warmup_count,
        }
    }
}

impl Clone for MeasurementOperationSpec {
    fn clone(&self) -> (r: Self)
        ensures
            r@ == self@,
    {
        MeasurementOperationSpec {
            operation: self.operation.clone(),
            fixture_scales: self.fixture_scales.clone(),
            sample_count: self.sample_count,
            warmup_count: self.warmup_count,
        }
    }
}

/// Which aggregates a measurement record must report.
pub struct MeasurementAggregationFields {
    pub count: bool,
    pub minimum: bool,
    pub median: bool,
    pub p95: bool,
    pub maximum: bool,
    pub failure_count: bool,
    pub peak_memory_bytes: bool,
    pub bytes_read_if_available: bool,
    pub bytes_written_if_available: bool,
    pub storage_size_before: bool,
    pub storage_size_after: bool,
}

/// The mathematical value of a [`MeasurementAggregationFields`].
pub struct MeasurementAggregationFieldsView {
    pub count: bool,
    pub minimum: bool,
    pub median: bool,
    pub p95: bool,
    pub maximum: bool,
    pub failure_count: bool,
    pub peak_memory_bytes: bool,
    pub bytes_read_if_available: bool,
    pub bytes_written_if_available: bool,
    pub storage_size_before: bool,
    pub storage_size_after: bool,
}

impl View for MeasurementAggregationFields {
    type V = MeasurementAggregationFieldsView;

    open spec fn view(&self) -> MeasurementAggregationFieldsView {
        MeasurementAggregationFieldsView {
            count: self.count,
            minimum: self.minimum,
            median: self.median,
            p95: self.p95,
            maximum: self.maximum,
            failure_count: self.failure_count,
            peak_memory_bytes: self.peak_memory_bytes,
            bytes_read_if_available: self.bytes_read_if_available,
            bytes_written_if_available: self.bytes_written_if_available,
            storage_size_before: self.storage_size_before,
            storage_size_after: self.storage_size_after,
        }
    }
}

impl Clone for MeasurementAggregationFields {
    fn clone(&self) -> (r: Self)
        ensures
            r@ == self@,
    {
        MeasurementAggregationFields {
            count: self.count,
            minimum: self.minimum,
            median: self.median,
            p95: self.p95,
            maximum: self.maximum,
            failure_count: self.failure_count,
            peak_memory_bytes: self.peak_memory_bytes,
            bytes_read_if_available: self.bytes_read_if_available,
            bytes_written_if_available: self.bytes_written_if_available,
            storage_size_before: self.storage_size_before,
            storage_size_after: self.storage_size_after,
        }
    }
}

/// The shape of one measurement record.
pub struct MeasurementRecordTemplate {
    pub operation: String,
    pub fixture_scale: MeasurementFixtureScale,
    pub sample_count: u32,
    pub warmup_count: u32,
    pub count: Option<u32>,
    pub minimum_ms: Option<u64>,
    pub median_ms: Option<u64>,
    pub p95_ms: Option<u64>,
    pub maximum_ms: Option<u64>,
    pub failure_count: u32,
    pub peak_memory_bytes: Option<u64>,
    pub bytes_read_if_available: Option<u64>,
    pub bytes_written_if_available: Option<u64>,
    pub storage_size_before: Option<u64>,
    pub storage_size_after: Option<u64>,
    pub environment_metadata: Vec<String>,
    pub known_limitations: Vec<String>,
}

/// The mathematical value of a [`MeasurementRecordTemplate`].
pub struct MeasurementRecordTemplateView {
    pub operation: Seq<char>,
    pub fixture_scale: MeasurementFixtureScale,
    pub sample_count: u32,
    pub warmup_count: u32,
    pub count: Option<u32>,
    pub minimum_ms: Option<u64>,
    pub median_ms: Option<u64>,
    pub p95_ms: Option<u64>,
    pub maximum_ms: Option<u64>,
    pub failure_count: u32,
    pub peak_memory_bytes: Option<u64>,
    pub bytes_read_if_available: Option<u64>,
    pub bytes_written_if_available: Option<u64>,
    pub storage_size_before: Option<u64>,
    pub storage_size_after: Option<u64>,
    pub environment_metadata: Seq<Seq<char>>,
    pub known_limitations: Seq<Seq<char>>,
}

impl View for MeasurementRecordTemplate {
    type V = MeasurementRecordTemplateView;

    open spec fn view(&self) -> MeasurementRecordTemplateView {
        MeasurementRecordTemplateView {
            operation: self.operation@,
            fixture_scale: self.fixture_scale,
            sample_count: self.sample_count,
            warmup_count: self.warmup_count,
            count: self.count,
            minimum_ms: self.minimum_ms,
            median_ms: self.median_ms,
            p95_ms: self.p95_ms,
            maximum_ms: self.maximum_ms,
            failure_count: self.failure_count,
            peak_memory_bytes: self.peak_memory_bytes,
            bytes_read_if_available: self.bytes_read_if_available,
            bytes_written_if_available: self.bytes_written_if_available,
            storage_size_before: self.storage_size_before,
            storage_size_after: self.storage_size_after,
            environment_metadata: vec_view(self.environment_metadata@),
            known_limitations: vec_view(self.known_limitations@),
        }
    }
}

impl Clone for MeasurementRecordTemplate {
    fn clone(&self) -> (r: Self)
        ensures
            r@ == self@,
    {
        MeasurementRecordTemplate {
            operation: self.operation.clone(),
            fixture_scale: self.fixture_scale,
            sample_count: self.sample_count,
            warmup_count: self.warmup_count,
            count: self.count,
            minimum_ms: self.minimum_ms,
            median_ms: self.median_ms,
            p95_ms: self.p95_ms,
            maximum_ms: self.maximum_ms,
            failure_count: self.failure_count,
            peak_memory_bytes: self.peak_memory_bytes,
            bytes_read_if_available: self.bytes_read_if_available,
            bytes_written_if_available: self.bytes_written_if_available,
            storage_size_before: self.storage_size_before,
            storage_size_after: self.storage_size_after,
            environment_metadata: vec_duplicate(&self.environment_metadata),
            known_limitations: vec_duplicate(&self.known_limitations),
        }
    }
}

/// The measurement contract both candidates are measured under.
pub struct ComparativeMeasurementContract {
    pub contract_version: String,
    pub fixture_id: String,
    pub fixture_version: String,
    pub operations: Vec<MeasurementOperationSpec>,
    pub aggregation_fields: MeasurementAggregationFields,
    pub correctness_disqualification_gates: Vec<String>,
    pub resource_bound_refusal_requirements: Vec<String>,
    pub deferred_scales: Vec<MeasurementFixtureScale>,
}

/// The mathematical value of a [`ComparativeMeasurementContract`].
pub struct ComparativeMeasurementContractView {
    pub contract_version: Seq<char>,
    pub fixture_id: Seq<char>,
    pub fixture_version: Seq<char>,
    pub operations: Seq<MeasurementOperationSpecView>,
    pub aggregation_fields: MeasurementAggregationFieldsView,
    pub correctness_disqualification_gates: Seq<Seq<char>>,
    pub resource_bound_refusal_requirements: Seq<Seq<char>>,
    pub deferred_scales: Seq<MeasurementFixtureScale>,
}

impl View for ComparativeMeasurementContract {
    type V = ComparativeMeasurementContractView;

    open spec fn view(&self) -> ComparativeMeasurementContractView {
        ComparativeMeasurementContractView {
            contract_version: self.contract_version@,
            fixture_id: self.fixture_id@,
            fixture_version: self.fixture_version@,
            operations: vec_view(self.operations@),
            aggregation_fields: self.aggregation_fields@,
            correctness_disqualification_gates: vec_view(self.correctness_disqualification_gates@),
            resource_bound_refusal_requirements: vec_view(self.resource_bound_refusal_requirements@),
            deferred_scales: self.deferred_scales@,
        }
    }
}

impl Clone for ComparativeMeasurementContract {
    fn clone(&self) -> (r: Self)
        ensures
            r@ == self@,
    {
        ComparativeMeasurementContract {
            contract_version: self.contract_version.clone(),
            fixture_id: self.fixture_id.clone(),
            fixture_version: self.fixture_version.clone(),
            operations: vec_duplicate(&self.operations),
            aggregation_fields: self.aggregation_fields.clone(),
            correctness_disqualification_gates: vec_duplicate(&self.correctness_disqualification_gates),
            resource_bound_refusal_requirements: vec_duplicate(&self.resource_bound_refusal_requirements),
            deferred_scales: self.deferred_scales.clone(),
        }
    }
}

fn scales_same(a: &Vec<MeasurementFixtureScale>, b: &Vec<MeasurementFixtureScale>) -> (r: bool)
    ensures
        r == (a@ == b@),
{
    if a.len() != b.len() {
        return false;
    }
    let mut i: usize = 0;
    while i < a.len()
        invariant
            i <= a.len() == b.len(),
            forall|j: int| 0 <= j < i ==> a@[j] == b@[j],
        decreases a.len() - i,
    {
        if a[i] != b[i] {
            return false;
        }
        i = i + 1;
    }
    proof {
        assert(a@ =~= b@);
    }
    true
}

impl SameAs for MeasurementOperationSpec {
    fn duplicate(&self) -> (r: Self) {
        self.clone()
    }

    fn same_as(&self, other: &Self) -> (r: bool) {
        self.operation.same_as(&other.operation) && scales_same(&self.fixture_scales, &other.fixture_scales)
            && self.sample_count == other.sample_count && self.warmup_count == other.warmup_count
    }
}

fn op(operation: &str, sample_count: u32, warmup_count: u32) -> (r: MeasurementOperationSpec)
    ensures
        r@ == (MeasurementOperationSpecView {
            operation: operation@,
            fixture_scales: seq![MeasurementFixtureScale::Small],
            sample_count,
            warmup_count,
        }),
{
    let mut scales: Vec<MeasurementFixtureScale> = Vec::new();
    scales.push(MeasurementFixtureScale::Small);
    let r = MeasurementOperationSpec { operation: String::from_str(operation), fixture_scales: scales, sample_count, warmup_count };
    proof {
        assert(r@.fixture_scales =~= seq![MeasurementFixtureScale::Small]);
    }
    r
}

/// The measured operations, in declared order.
pub open spec fn measured_operations_spec() -> Seq<MeasurementOperationSpecView> {
    seq![
        MeasurementOperationSpecView { operation: "create_session"@, fixture_scales: seq![MeasurementFixtureScale::Small], sample_count: 5, warmup_count: 1 },
        MeasurementOperationSpecView { operation: "open_cold"@, fixture_scales: seq![MeasurementFixtureScale::Small], sample_count: 5, warmup_count: 1 },
        MeasurementOperationSpecView { operation: "open_warm"@, fixture_scales: seq![MeasurementFixtureScale::Small], sample_count: 5, warmup_count: 2 },
        MeasurementOperationSpecView { operation: "append_review_decision"@, fixture_scales: seq![MeasurementFixtureScale::Small], sample_count: 5, warmup_count: 1 },
        MeasurementOperationSpecView { operation: "append_manual_replacement"@, fixture_scales: seq![MeasurementFixtureScale::Small], sample_count: 5, warmup_count: 1 },
        MeasurementOperationSpecView { operation: "append_reusable_promotion"@, fixture_scales: seq![MeasurementFixtureScale::Small], sample_count: 5, warmup_count: 1 },
        MeasurementOperationSpecView { operation: "append_reusable_revocation"@, fixture_scales: seq![MeasurementFixtureScale::Small], sample_count: 5, warmup_count: 1 },
        MeasurementOperationSpecView { operation: "append_reusable_supersession"@, fixture_scales: seq![MeasurementFixtureScale::Small], sample_count: 5, warmup_count: 1 },
        MeasurementOperationSpecView { operation: "close"@, fixture_scales: seq![MeasurementFixtureScale::Small], sample_count: 5, warmup_count: 1 },
        MeasurementOperationSpecView { operation: "reopen_and_validate"@, fixture_scales: seq![MeasurementFixtureScale::Small], sample_count: 5, warmup_count: 1 },
        MeasurementOperationSpecView { operation: "semantic_duplication"@, fixture_scales: seq![MeasurementFixtureScale::Small], sample_count: 5, warmup_count: 1 },
        MeasurementOperationSpecView { operation: "derived_rebuild"@, fixture_scales: seq![MeasurementFixtureScale::Small], sample_count: 5, warmup_count: 1 },
        MeasurementOperationSpecView { operation: "compaction_where_supported"@, fixture_scales: seq![MeasurementFixtureScale::Small], sample_count: 5, warmup_count: 1 },
    ]
}

/// The comparative measurement contract.
pub open spec fn measurement_contract_spec() -> ComparativeMeasurementContractView {
    ComparativeMeasurementContractView {
        contract_version: MEASUREMENT_CONTRACT_VERSION@,
        fixture_id: CURRENT_CONTRACT_FIXTURE_ID@,
        fixture_version: CURRENT_CONTRACT_FIXTURE_VERSION@,
        operations: measured_operations_spec(),
        aggregation_fields: MeasurementAggregationFieldsView {
            count: true,
            minimum: true,
            median: true,
            p95: true,
            maximum: true,
            failure_count: true,
            peak_memory_bytes: true,
            bytes_read_if_available: true,
            bytes_written_if_available: true,
            storage_size_before: true,
            storage_size_after: true,
        },
        correctness_disqualification_gates: seq!["failed_oracle_compare"@, "partial_authoritative_transition_exposed"@, "stale_write_accepted"@, "unknown_newer_format_writable"@],
        resource_bound_refusal_requirements: seq!["bounded_malformed_input_handling"@, "no_unbounded_startup_or_memory_for_small_fixture"@],
        deferred_scales: seq![MeasurementFixtureScale::Medium, MeasurementFixtureScale::Stress],
    }
}

/// The comparative measurement contract.
pub fn comparative_measurement_contract() -> (r: ComparativeMeasurementContract)
    ensures
        r@ == measurement_contract_spec(),
{
    let mut ops: Vec<MeasurementOperationSpec> = Vec::new();
    ops.push(op("create_session", 5, 1));
    ops.push(op("open_cold", 5, 1));
    ops.push(op("open_warm", 5, 2));
    ops.push(op("append_review_decision", 5, 1));
    ops.push(op("append_manual_replacement", 5, 1));
    ops.push(op("append_reusable_promotion", 5, 1));
    ops.push(op("append_reusable_revocation", 5, 1));
    ops.push(op("append_reusable_supersession", 5, 1));
    ops.push(op("close", 5, 1));
    ops.push(op("reopen_and_validate", 5, 1));
    ops.push(op("semantic_duplication", 5, 1));
    ops.push(op("derived_rebuild", 5, 1));
    ops.push(op("compaction_where_supported", 5, 1));
    proof {
        assert(vec_view(ops@) =~= measured_operations_spec());
    }
    let mut gates: Vec<String> = Vec::new();
    gates.push(String::from_str("failed_oracle_compare"));
    gates.push(String::from_str("partial_authoritative_transition_exposed"));
    gates.push(String::from_str("stale_write_accepted"));
    gates.push(String::from_str("unknown_newer_format_writable"));
    proof {
        assert(vec_view(gates@) =~= seq!["failed_oracle_compare"@, "partial_authoritative_transition_exposed"@, "stale_write_accepted"@, "unknown_newer_format_writable"@]);
    }
    let mut bounds: Vec<String> = Vec::new();
    bounds.push(String::from_str("bounded_malformed_input_handling"));
    bounds.push(String::from_str("no_unbounded_startup_or_memory_for_small_fixture"));
    proof {
        assert(vec_view(bounds@) =~= seq!["bounded_malformed_input_handling"@, "no_unbounded_startup_or_memory_for_small_fixture"@]);
    }
    let mut deferred: Vec<MeasurementFixtureScale> = Vec::new();
    deferred.push(MeasurementFixtureScale::Medium);
    deferred.push(MeasurementFixtureScale::Stress);
    let r = ComparativeMeasurementContract {
        contract_version: String::from_str(MEASUREMENT_CONTRACT_VERSION),
        fixture_id: String::from_str(CURRENT_CONTRACT_FIXTURE_ID),
        fixture_version: String::from_str(CURRENT_CONTRACT_FIXTURE_VERSION),
        operations: ops,
        aggregation_fields: MeasurementAggregationFields {
            count: true,
            minimum: true,
            median: true,
            p95: true,
            maximum: true,
            failure_count: true,
            peak_memory_bytes: true,
            bytes_read_if_available: true,
            bytes_written_if_available: true,
            storage_size_before: true,
            storage_size_after: true,
        },
        correctness_disqualification_gates: gates,
        resource_bound_refusal_requirements: bounds,
        deferred_scales: deferred,
    };
    proof {
        assert(r@.deferred_scales =~= seq![MeasurementFixtureScale::Medium, MeasurementFixtureScale::Stress]);
        assert(r@ =~= measurement_contract_spec());
    }
    r
}

/// Whether a measurement contract reports every required aggregate and measures something.
pub open spec fn measurement_contract_check_spec(c: ComparativeMeasurementContractView) -> Result<(), Seq<char>> {
    if !c.aggregation_fields.count || !c.aggregation_fields.median || !c.aggregation_fields.p95
        || !c.aggregation_fields.maximum || !c.aggregation_fields.failure_count {
        Err("measurement contract missing required aggregation fields"@)
    } else if c.operations.len() == 0 {
        Err("measurement contract has no operations"@)
    } else {
        Ok(())
    }
}

/// Checks the measurement contract.
pub fn validate_measurement_contract() -> (r: Result<(), String>)
    ensures
        match r {
            Ok(_) => measurement_contract_check_spec(measurement_contract_spec()) is Ok,
            Err(e) => measurement_contract_check_spec(measurement_contract_spec()) == Err::<(), Seq<char>>(e@),
        },
{
    let contract = comparative_measurement_contract();
    let fields = &contract.aggregation_fields;
    if !fields.count || !fields.median || !fields.p95 || !fields.maximum || !fields.failure_count {
        return Err(String::from_str("measurement contract missing required aggregation fields"));
    }
    if contract.operations.len() == 0 {
        return Err(String::from_str("measurement contract has no operations"));
    }
    Ok(())
}

/// The measurement contract passes its own check.
pub proof fn law_measurement_contract_valid()
    ensures
        measurement_contract_check_spec(measurement_contract_spec()) is Ok,
{
}

} // verus!
