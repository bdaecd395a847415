use vstd::prelude::*;
use crate::candidate_equivalence::CandidateEligibilityStatus;
use crate::evidence_01c::types::{
    execution_status_name, execution_status_name_spec, fixture_scale_name, fixture_scale_name_spec,
    CandidateEligibilityRecord, CandidateEligibilityRecordView, CandidateRunArtifacts, CandidateRunArtifactsView,
    MeasurementAggregate, MeasurementAggregateView, MetricAvailability, MetricAvailabilityView,
    NormalizedScenarioResult, NormalizedScenarioResultView, ScenarioExecutionStatus,
};
use crate::measurement::{
    comparative_measurement_contract, measured_operations_spec, measurement_contract_spec,
    MeasurementFixtureScale, MeasurementOperationSpec, MeasurementOperationSpecView,
};
use crate::model::{opt_duplicate, opt_eq, opt_same, opt_view, vec_duplicate, vec_same, vec_view, SameAs};
use crate::scenario_contract::{
    catalog_v3_spec, scenario_contract_v3, ScenarioContractV3, ScenarioContractV3View, ScenarioRequirementLevel,
};
use crate::text::{concat2, concat3, decimal, decimal_spec, join, join_spec, str_eq};

verus! {

/// How ready the comparison is for an owner decision, with the limitations
/// and blockers found.
pub struct ReadinessAssessment {
    pub mechanism_comparison_readiness: String,
    pub mechanism_selection_readiness: String,
    pub limitations: Vec<String>,
    pub blockers: Vec<String>,
}

/// The mathematical value of a [`ReadinessAssessment`].
pub struct ReadinessAssessmentView {
    pub mechanism_comparison_readiness: Seq<char>,
    pub mechanism_selection_readiness: Seq<char>,
    pub limitations: Seq<Seq<char>>,
    pub blockers: Seq<Seq<char>>,
}

impl View for ReadinessAssessment {
    type V = ReadinessAssessmentView;

    open spec fn view(&self) -> ReadinessAssessmentView {
        ReadinessAssessmentView {
            mechanism_comparison_readiness: self.mechanism_comparison_readiness@,
            mechanism_selection_readiness: self.mechanism_selection_readiness@,
            limitations: vec_view(self.limitations@),
            blockers: vec_view(self.blockers@),
        }
    }
}

/// The texts of items `0 .. n`, in order, each item giving `f(i)`.
pub open spec fn texts_upto(n: int, f: spec_fn(int) -> Seq<Seq<char>>) -> Seq<Seq<char>>
    decreases n,
{
    if n <= 0 {
        Seq::empty()
    } else {
        texts_upto(n - 1, f) + f(n - 1)
    }
}

/// The text where `bad` holds, and none otherwise.
pub open spec fn text_if(bad: bool, t: Seq<char>) -> Seq<Seq<char>> {
    if bad {
        seq![t]
    } else {
        Seq::empty()
    }
}

fn push_texts(out: &mut Vec<String>, more: Vec<String>)
    ensures
        vec_view(final(out)@) == vec_view(old(out)@) + vec_view(more@),
{
    let ghost start = vec_view(out@);
    let mut i: usize = 0;
    while i < more.len()
        invariant
            i <= more.len(),
            vec_view(out@) == start + vec_view(more@).take(i as int),
        decreases more.len() - i,
    {
        let t = more[i].clone();
        let ghost before = vec_view(out@);
        out.push(t);
        proof {
            assert(vec_view(out@) =~= before.push(more@[i as int]@));
            assert(vec_view(more@).take(i + 1) =~= vec_view(more@).take(i as int).push(more@[i as int]@));
        }
        i = i + 1;
        proof {
            assert(vec_view(out@) =~= start + vec_view(more@).take(i as int));
        }
    }
    proof {
        assert(vec_view(more@).take(i as int) =~= vec_view(more@));
    }
}

fn push_text(out: &mut Vec<String>, t: String)
    ensures
        vec_view(final(out)@) == vec_view(old(out)@).push(t@),
{
    out.push(t);
    proof {
        assert(vec_view(final(out)@) =~= vec_view(old(out)@).push(t@));
    }
}

/// The position of the first result row of a scenario.
pub open spec fn first_result_index(rows: Seq<NormalizedScenarioResultView>, id: Seq<char>) -> Option<nat>
    decreases rows.len(),
{
    if rows.len() == 0 {
        None
    } else if rows[0].scenario_id == id {
        Some(0)
    } else {
        match first_result_index(rows.drop_first(), id) {
            Some(i) => Some(i + 1),
            None => None,
        }
    }
}

proof fn lemma_first_result_index(rows: Seq<NormalizedScenarioResultView>, id: Seq<char>)
    ensures
        match first_result_index(rows, id) {
            Some(i) => i < rows.len() && rows[i as int].scenario_id == id,
            None => true,
        },
    decreases rows.len(),
{
    if rows.len() > 0 && rows[0].scenario_id != id {
        lemma_first_result_index(rows.drop_first(), id);
        match first_result_index(rows.drop_first(), id) {
            Some(i) => {
                assert(rows[(i + 1) as int] == rows.drop_first()[i as int]);
            },
            None => {},
        }
    }
}

fn result_position(rows: &Vec<NormalizedScenarioResult>, id: &String) -> (r: Option<usize>)
    ensures
        match r {
            Some(k) => k < rows@.len() && first_result_index(vec_view(rows@), id@) == Some(k as nat),
            None => first_result_index(vec_view(rows@), id@) is None,
        },
{
    let ghost rv = vec_view(rows@);
    let mut k: usize = 0;
    proof {
        assert(rv.skip(0) =~= rv);
    }
    while k < rows.len()
        invariant
            k <= rows.len(),
            rv == vec_view(rows@),
            first_result_index(rv, id@) == match first_result_index(rv.skip(k as int), id@) {
                Some(i) => Some((i + k) as nat),
                None => None::<nat>,
            },
        decreases rows.len() - k,
    {
        proof {
            assert(rv.skip(k as int)[0] == rv[k as int]);
            assert(rv.skip(k as int).drop_first() =~= rv.skip(k + 1));
        }
        if rows[k].scenario_id.same_as(id) {
            return Some(k);
        }
        k = k + 1;
    }
    proof {
        assert(rv.skip(k as int).len() == 0);
    }
    None
}

/// A peak-memory metric counts only when it is available and positive.
pub open spec fn peak_memory_ok(m: MetricAvailabilityView<u64>) -> bool {
    m.status == "available"@ && match m.value {
        Some(v) => v > 0,
        None => false,
    }
}

/// A storage metric counts when it is declared available or unavailable.
pub open spec fn storage_ok(m: MetricAvailabilityView<u64>) -> bool {
    m.status == "available"@ || m.status == "unavailable"@
}

/// The operation measured only where compaction is supported.
pub open spec fn compaction_skipped(a: MeasurementAggregateView) -> bool {
    a.operation == "compaction_where_supported"@ && a.count == 0
}

/// Whether an aggregate is complete evidence: an unsupported compaction, or
/// the expected number of samples with no failure, a positive peak memory,
/// and declared storage metrics.
pub open spec fn aggregate_valid_spec(a: MeasurementAggregateView, expected_count: u32) -> bool {
    compaction_skipped(a) || (a.count == expected_count && a.failure_count == 0 && peak_memory_ok(a.peak_memory_bytes)
        && storage_ok(a.storage_size_before) && storage_ok(a.storage_size_after))
}

fn peak_memory_is_satisfied(m: &MetricAvailability<u64>) -> (r: bool)
    ensures
        r == peak_memory_ok(m@),
{
    str_eq(m.status.as_str(), "available") && match m.value {
        Some(v) => v > 0,
        None => false,
    }
}

fn storage_metric_is_satisfied(m: &MetricAvailability<u64>) -> (r: bool)
    ensures
        r == storage_ok(m@),
{
    str_eq(m.status.as_str(), "available") || str_eq(m.status.as_str(), "unavailable")
}

fn is_compaction_skipped(a: &MeasurementAggregate) -> (r: bool)
    ensures
        r == compaction_skipped(a@),
{
    str_eq(a.operation.as_str(), "compaction_where_supported") && a.count == 0
}

/// Whether an aggregate is complete evidence for the expected sample count.
pub fn aggregate_is_valid(aggregate: &MeasurementAggregate, expected_count: u32) -> (r: bool)
    ensures
        r == aggregate_valid_spec(aggregate@, expected_count),
{
    if is_compaction_skipped(aggregate) {
        return true;
    }
    aggregate.count == expected_count && aggregate.failure_count == 0 && peak_memory_is_satisfied(
        &aggregate.peak_memory_bytes,
    ) && storage_metric_is_satisfied(&aggregate.storage_size_before) && storage_metric_is_satisfied(
        &aggregate.storage_size_after,
    )
}

/// What a candidate's results say against one scenario of the catalog, for eligibility.
pub open spec fn eligibility_blockers_for(rows: Seq<NormalizedScenarioResultView>, s: ScenarioContractV3View) -> Seq<
    Seq<char>,
> {
    match first_result_index(rows, s.scenario_id) {
        None => text_if(s.requirement == ScenarioRequirementLevel::Required, "missing "@ + s.scenario_id),
        Some(k) => {
            let st = rows[k as int].status;
            match s.requirement {
                ScenarioRequirementLevel::Required => text_if(
                    st != ScenarioExecutionStatus::Passed,
                    s.scenario_id + " status "@ + execution_status_name_spec(st),
                ),
                ScenarioRequirementLevel::CapabilityDependent => text_if(
                    st == ScenarioExecutionStatus::Failed,
                    s.scenario_id + " failed capability-dependent scenario"@,
                ),
            }
        },
    }
}

/// Per-scenario eligibility blockers.
pub open spec fn eligibility_fn(rows: Seq<NormalizedScenarioResultView>) -> spec_fn(int) -> Seq<Seq<char>> {
    |i: int| eligibility_blockers_for(rows, catalog_v3_spec()[i])
}

/// Everything that keeps a candidate from eligibility.
pub open spec fn eligibility_blockers(a: CandidateRunArtifactsView) -> Seq<Seq<char>> {
    texts_upto(catalog_v3_spec().len() as int, eligibility_fn(a.scenario_results)) + text_if(
        a.disqualifications.len() > 0,
        decimal_spec(a.disqualifications.len()) + " correctness disqualification(s)"@,
    )
}

/// The eligibility record of a candidate's run.
pub open spec fn eligibility_spec(a: CandidateRunArtifactsView) -> CandidateEligibilityRecordView {
    let blockers = eligibility_blockers(a);
    CandidateEligibilityRecordView {
        candidate_id: a.candidate_id,
        candidate_version: a.candidate_version,
        status: if blockers.len() == 0 {
            CandidateEligibilityStatus::EligibleForEquivalentExecution
        } else {
            CandidateEligibilityStatus::DisqualifiedByDemonstratedFailure
        },
        rationale: if blockers.len() == 0 {
            "required scenarios executed with valid evidence"@
        } else {
            join_spec(blockers, "; "@)
        },
    }
}

fn eligibility_for_scenario(rows: &Vec<NormalizedScenarioResult>, s: &ScenarioContractV3) -> (r: Vec<String>)
    ensures
        vec_view(r@) == eligibility_blockers_for(vec_view(rows@), s@),
{
    let mut out: Vec<String> = Vec::new();
    match result_position(rows, &s.scenario_id) {
        None => {
            if s.requirement == ScenarioRequirementLevel::Required {
                out.push(concat2("missing ", s.scenario_id.as_str()));
            }
        },
        Some(k) => {
            let st = rows[k].status;
            proof {
                assert(vec_view(rows@)[k as int] == rows@[k as int]@);
            }
            match s.requirement {
                ScenarioRequirementLevel::Required => {
                    if st != ScenarioExecutionStatus::Passed {
                        let name = execution_status_name(st);
                        out.push(concat3(s.scenario_id.as_str(), " status ", name.as_str()));
                    }
                },
                ScenarioRequirementLevel::CapabilityDependent => {
                    if st == ScenarioExecutionStatus::Failed {
                        out.push(concat2(s.scenario_id.as_str(), " failed capability-dependent scenario"));
                    }
                },
            }
        },
    }
    proof {
        assert(vec_view(out@) =~= eligibility_blockers_for(vec_view(rows@), s@));
    }
    out
}

/// Whether a candidate's run makes it eligible for equivalent execution, and why.
pub fn compute_eligibility(artifacts: &CandidateRunArtifacts) -> (r: CandidateEligibilityRecord)
    ensures
        r@ == eligibility_spec(artifacts@),
{
    let catalog = scenario_contract_v3();
    let ghost rows = vec_view(artifacts.scenario_results@);
    let mut blockers: Vec<String> = Vec::new();
    let mut i: usize = 0;
    while i < catalog.len()
        invariant
            i <= catalog.len(),
            vec_view(catalog@) == catalog_v3_spec(),
            rows == vec_view(artifacts.scenario_results@),
            vec_view(blockers@) == texts_upto(i as int, eligibility_fn(rows)),
        decreases catalog.len() - i,
    {
        proof {
            assert(vec_view(catalog@)[i as int] == catalog@[i as int]@);
        }
        let more = eligibility_for_scenario(&artifacts.scenario_results, &catalog[i]);
        push_texts(&mut blockers, more);
        i = i + 1;
    }
    if artifacts.disqualifications.len() > 0 {
        let count = decimal(artifacts.disqualifications.len());
        push_text(&mut blockers, concat2(count.as_str(), " correctness disqualification(s)"));
    }
    proof {
        assert(vec_view(blockers@) =~= eligibility_blockers(artifacts@));
    }
    let empty = blockers.len() == 0;
    let status = if empty {
        CandidateEligibilityStatus::EligibleForEquivalentExecution
    } else {
        CandidateEligibilityStatus::DisqualifiedByDemonstratedFailure
    };
    let rationale = if empty {
        String::from_str("required scenarios executed with valid evidence")
    } else {
        join(&blockers, "; ")
    };
    CandidateEligibilityRecord {
        candidate_id: artifacts.candidate_id.clone(),
        candidate_version: artifacts.candidate_version.clone(),
        status,
        rationale,
    }
}

/// What a candidate's result row says against one scenario, for readiness:
/// limitations, then blockers.
pub open spec fn readiness_findings_for(rows: Seq<NormalizedScenarioResultView>, s: ScenarioContractV3View) -> (
    Seq<Seq<char>>,
    Seq<Seq<char>>,
) {
    match first_result_index(rows, s.scenario_id) {
        None => (
            Seq::empty(),
            text_if(s.requirement == ScenarioRequirementLevel::Required, "missing scenario result "@ + s.scenario_id),
        ),
        Some(k) => {
            let r = rows[k as int];
            match s.requirement {
                ScenarioRequirementLevel::Required => (
                    Seq::empty(),
                    text_if(
                        r.status != ScenarioExecutionStatus::Passed,
                        "required scenario "@ + s.scenario_id + " not passed ("@ + execution_status_name_spec(r.status)
                            + ")"@,
                    ),
                ),
                ScenarioRequirementLevel::CapabilityDependent => if r.status == ScenarioExecutionStatus::Unsupported {
                    (
                        seq![
                            "capability-dependent scenario "@ + s.scenario_id + " unsupported: "@ + join_spec(
                                r.limitations,
                                ", "@,
                            ),
                        ],
                        Seq::empty(),
                    )
                } else {
                    (
                        Seq::empty(),
                        text_if(
                            r.status != ScenarioExecutionStatus::Passed,
                            "capability-dependent scenario "@ + s.scenario_id + " invalid ("@
                                + execution_status_name_spec(r.status) + ")"@,
                        ),
                    )
                },
            }
        },
    }
}

/// Per-scenario readiness limitations.
pub open spec fn scenario_limitations_fn(rows: Seq<NormalizedScenarioResultView>) -> spec_fn(int) -> Seq<Seq<char>> {
    |i: int| readiness_findings_for(rows, catalog_v3_spec()[i]).0
}

/// Per-scenario readiness blockers.
pub open spec fn scenario_blockers_fn(rows: Seq<NormalizedScenarioResultView>) -> spec_fn(int) -> Seq<Seq<char>> {
    |i: int| readiness_findings_for(rows, catalog_v3_spec()[i]).1
}

fn readiness_for_scenario(
    rows: &Vec<NormalizedScenarioResult>,
    s: &ScenarioContractV3,
    limitations: &mut Vec<String>,
    blockers: &mut Vec<String>,
)
    ensures
        vec_view(final(limitations)@) == vec_view(old(limitations)@) + readiness_findings_for(vec_view(rows@), s@).0,
        vec_view(final(blockers)@) == vec_view(old(blockers)@) + readiness_findings_for(vec_view(rows@), s@).1,
{
    let ghost l0 = vec_view(limitations@);
    let ghost b0 = vec_view(blockers@);
    match result_position(rows, &s.scenario_id) {
        None => {
            if s.requirement == ScenarioRequirementLevel::Required {
                push_text(blockers, concat2("missing scenario result ", s.scenario_id.as_str()));
            }
        },
        Some(k) => {
            let row = &rows[k];
            proof {
                assert(vec_view(rows@)[k as int] == row@);
            }
            match s.requirement {
                ScenarioRequirementLevel::Required => {
                    if row.status != ScenarioExecutionStatus::Passed {
                        let name = execution_status_name(row.status);
                        let head = concat3("required scenario ", s.scenario_id.as_str(), " not passed (");
                        push_text(blockers, concat3(head.as_str(), name.as_str(), ")"));
                    }
                },
                ScenarioRequirementLevel::CapabilityDependent => {
                    if row.status == ScenarioExecutionStatus::Unsupported {
                        let joined = join(&row.limitations, ", ");
                        let head = concat3("capability-dependent scenario ", s.scenario_id.as_str(), " unsupported: ");
                        push_text(limitations, concat2(head.as_str(), joined.as_str()));
                    } else if row.status != ScenarioExecutionStatus::Passed {
                        let name = execution_status_name(row.status);
                        let head = concat3("capability-dependent scenario ", s.scenario_id.as_str(), " invalid (");
                        push_text(blockers, concat3(head.as_str(), name.as_str(), ")"));
                    }
                },
            }
        },
    }
    proof {
        assert(vec_view(limitations@) =~= l0 + readiness_findings_for(vec_view(rows@), s@).0);
        assert(vec_view(blockers@) =~= b0 + readiness_findings_for(vec_view(rows@), s@).1);
    }
}

fn scenario_readiness(
    rows: &Vec<NormalizedScenarioResult>,
    catalog: &Vec<ScenarioContractV3>,
    limitations: &mut Vec<String>,
    blockers: &mut Vec<String>,
)
    requires
        vec_view(catalog@) == catalog_v3_spec(),
    ensures
        vec_view(final(limitations)@) == vec_view(old(limitations)@) + texts_upto(
            catalog_v3_spec().len() as int,
            scenario_limitations_fn(vec_view(rows@)),
        ),
        vec_view(final(blockers)@) == vec_view(old(blockers)@) + texts_upto(
            catalog_v3_spec().len() as int,
            scenario_blockers_fn(vec_view(rows@)),
        ),
{
    let ghost rv = vec_view(rows@);
    let ghost l0 = vec_view(limitations@);
    let ghost b0 = vec_view(blockers@);
    let mut i: usize = 0;
    while i < catalog.len()
        invariant
            i <= catalog.len(),
            vec_view(catalog@) == catalog_v3_spec(),
            rv == vec_view(rows@),
            vec_view(limitations@) == l0 + texts_upto(i as int, scenario_limitations_fn(rv)),
            vec_view(blockers@) == b0 + texts_upto(i as int, scenario_blockers_fn(rv)),
        decreases catalog.len() - i,
    {
        proof {
            assert(vec_view(catalog@)[i as int] == catalog@[i as int]@);
        }
        readiness_for_scenario(rows, &catalog[i], limitations, blockers);
        i = i + 1;
        proof {
            assert(vec_view(limitations@) =~= l0 + texts_upto(i as int, scenario_limitations_fn(rv)));
            assert(vec_view(blockers@) =~= b0 + texts_upto(i as int, scenario_blockers_fn(rv)));
        }
    }
}

/// The position of the first aggregate of an operation at a scale.
pub open spec fn first_aggregate_index(
    rows: Seq<MeasurementAggregateView>,
    operation: Seq<char>,
    scale: MeasurementFixtureScale,
) -> Option<nat>
    decreases rows.len(),
{
    if rows.len() == 0 {
        None
    } else if rows[0].operation == operation && rows[0].fixture_scale == scale {
        Some(0)
    } else {
        match first_aggregate_index(rows.drop_first(), operation, scale) {
            Some(i) => Some(i + 1),
            None => None,
        }
    }
}

fn aggregate_position(rows: &Vec<MeasurementAggregate>, operation: &String, scale: MeasurementFixtureScale) -> (r: Option<
    usize,
>)
    ensures
        match r {
            Some(k) => k < rows@.len() && first_aggregate_index(vec_view(rows@), operation@, scale) == Some(k as nat),
            None => first_aggregate_index(vec_view(rows@), operation@, scale) is None,
        },
{
    let ghost rv = vec_view(rows@);
    let mut k: usize = 0;
    proof {
        assert(rv.skip(0) =~= rv);
    }
    while k < rows.len()
        invariant
            k <= rows.len(),
            rv == vec_view(rows@),
            first_aggregate_index(rv, operation@, scale) == match first_aggregate_index(
                rv.skip(k as int),
                operation@,
                scale,
            ) {
                Some(i) => Some((i + k) as nat),
                None => None::<nat>,
            },
        decreases rows.len() - k,
    {
        proof {
            assert(rv.skip(k as int)[0] == rv[k as int]);
            assert(rv.skip(k as int).drop_first() =~= rv.skip(k + 1));
        }
        if rows[k].operation.same_as(operation) && rows[k].fixture_scale == scale {
            return Some(k);
        }
        k = k + 1;
    }
    proof {
        assert(rv.skip(k as int).len() == 0);
    }
    None
}

/// `measurement <operation> <scale>`, the head of an aggregate's findings.
pub open spec fn aggregate_head(a: MeasurementAggregateView) -> Seq<char> {
    "measurement "@ + a.operation + " "@ + fixture_scale_name_spec(a.fixture_scale)
}

/// Why an aggregate does not count as complete evidence.
pub open spec fn aggregate_blockers(a: MeasurementAggregateView, expected_count: u32) -> Seq<Seq<char>> {
    if compaction_skipped(a) {
        Seq::empty()
    } else {
        text_if(
            a.count != expected_count,
            aggregate_head(a) + " count "@ + decimal_spec(a.count as nat) + " != "@ + decimal_spec(expected_count as nat),
        ) + text_if(
            a.failure_count > 0,
            aggregate_head(a) + " failure_count "@ + decimal_spec(a.failure_count as nat),
        ) + text_if(!peak_memory_ok(a.peak_memory_bytes), aggregate_head(a) + " peak_memory unavailable"@)
    }
}

/// What a candidate's measurements say of one operation at one scale.
pub open spec fn measurement_blockers_for(
    a: CandidateRunArtifactsView,
    op: MeasurementOperationSpecView,
    scale: MeasurementFixtureScale,
) -> Seq<Seq<char>> {
    match first_aggregate_index(a.measurements, op.operation, scale) {
        None => seq![
            "missing measurement "@ + op.operation + " "@ + fixture_scale_name_spec(scale) + " for "@ + a.candidate_id,
        ],
        Some(k) => aggregate_blockers(a.measurements[k as int], op.sample_count),
    }
}

/// Per-scale measurement blockers of one operation.
pub open spec fn operation_blockers_fn(a: CandidateRunArtifactsView, op: MeasurementOperationSpecView) -> spec_fn(int) -> Seq<
    Seq<char>,
> {
    |j: int| measurement_blockers_for(a, op, op.fixture_scales[j])
}

/// Per-operation measurement blockers.
pub open spec fn measurement_blockers_fn(a: CandidateRunArtifactsView) -> spec_fn(int) -> Seq<Seq<char>> {
    |i: int|
        texts_upto(
            measured_operations_spec()[i].fixture_scales.len() as int,
            operation_blockers_fn(a, measured_operations_spec()[i]),
        )
}

/// Everything a candidate's measurements leave incomplete.
pub open spec fn measurement_blockers(a: CandidateRunArtifactsView) -> Seq<Seq<char>> {
    texts_upto(measured_operations_spec().len() as int, measurement_blockers_fn(a))
}

fn aggregate_head_text(a: &MeasurementAggregate) -> (r: String)
    ensures
        r@ == aggregate_head(a@),
{
    let scale = fixture_scale_name(a.fixture_scale);
    let head = concat3("measurement ", a.operation.as_str(), " ");
    concat2(head.as_str(), scale.as_str())
}

fn evaluate_measurement_aggregate(a: &MeasurementAggregate, expected_count: u32, blockers: &mut Vec<String>)
    ensures
        vec_view(final(blockers)@) == vec_view(old(blockers)@) + aggregate_blockers(a@, expected_count),
{
    let ghost b0 = vec_view(blockers@);
    if is_compaction_skipped(a) {
        proof {
            assert(vec_view(blockers@) =~= b0 + aggregate_blockers(a@, expected_count));
        }
        return ;
    }
    let head = aggregate_head_text(a);
    if a.count != expected_count {
        let count = decimal(a.count as usize);
        let expected = decimal(expected_count as usize);
        let part = concat3(head.as_str(), " count ", count.as_str());
        push_text(blockers, concat3(part.as_str(), " != ", expected.as_str()));
    }
    if a.failure_count > 0 {
        let count = decimal(a.failure_count as usize);
        push_text(blockers, concat3(head.as_str(), " failure_count ", count.as_str()));
    }
    if !peak_memory_is_satisfied(&a.peak_memory_bytes) {
        push_text(blockers, concat2(head.as_str(), " peak_memory unavailable"));
    }
    proof {
        assert(vec_view(blockers@) =~= b0 + aggregate_blockers(a@, expected_count));
    }
}

fn measurement_for(
    a: &CandidateRunArtifacts,
    op: &MeasurementOperationSpec,
    scale: MeasurementFixtureScale,
    blockers: &mut Vec<String>,
)
    ensures
        vec_view(final(blockers)@) == vec_view(old(blockers)@) + measurement_blockers_for(a@, op@, scale),
{
    let ghost b0 = vec_view(blockers@);
    match aggregate_position(&a.measurements, &op.operation, scale) {
        None => {
            let name = fixture_scale_name(scale);
            let head = concat3("missing measurement ", op.operation.as_str(), " ");
            let middle = concat3(head.as_str(), name.as_str(), " for ");
            push_text(blockers, concat2(middle.as_str(), a.candidate_id.as_str()));
        },
        Some(k) => {
            proof {
                assert(vec_view(a.measurements@)[k as int] == a.measurements@[k as int]@);
            }
            evaluate_measurement_aggregate(&a.measurements[k], op.sample_count, blockers);
        },
    }
    proof {
        assert(vec_view(blockers@) =~= b0 + measurement_blockers_for(a@, op@, scale));
    }
}

fn measurement_readiness(
    a: &CandidateRunArtifacts,
    ops: &Vec<MeasurementOperationSpec>,
    blockers: &mut Vec<String>,
)
    requires
        vec_view(ops@) == measured_operations_spec(),
    ensures
        vec_view(final(blockers)@) == vec_view(old(blockers)@) + measurement_blockers(a@),
{
    let ghost b0 = vec_view(blockers@);
    let mut i: usize = 0;
    while i < ops.len()
        invariant
            i <= ops.len(),
            vec_view(ops@) == measured_operations_spec(),
            vec_view(blockers@) == b0 + texts_upto(i as int, measurement_blockers_fn(a@)),
        decreases ops.len() - i,
    {
        let op = &ops[i];
        proof {
            assert(vec_view(ops@)[i as int] == op@);
        }
        let ghost b1 = vec_view(blockers@);
        let mut j: usize = 0;
        while j < op.fixture_scales.len()
            invariant
                j <= op.fixture_scales.len(),
                vec_view(blockers@) == b1 + texts_upto(j as int, operation_blockers_fn(a@, op@)),
            decreases op.fixture_scales.len() - j,
        {
            measurement_for(a, op, op.fixture_scales[j], blockers);
            j = j + 1;
            proof {
                assert(vec_view(blockers@) =~= b1 + texts_upto(j as int, operation_blockers_fn(a@, op@)));
            }
        }
        i = i + 1;
        proof {
            assert(vec_view(blockers@) =~= b0 + texts_upto(i as int, measurement_blockers_fn(a@)));
        }
    }
}

/// Some aggregate records an unsupported compaction.
pub open spec fn any_compaction_skipped(rows: Seq<MeasurementAggregateView>) -> bool {
    exists|k: int| 0 <= k < rows.len() && compaction_skipped(#[trigger] rows[k])
}

/// Some aggregate declares a metric unavailable.
pub open spec fn any_unavailable(rows: Seq<MeasurementAggregateView>, read: bool) -> bool {
    exists|k: int|
        0 <= k < rows.len() && (if read {
            (#[trigger] rows[k]).bytes_read.status == "unavailable"@
        } else {
            rows[k].bytes_written.status == "unavailable"@
        })
}

/// Some measured operation runs on the stress fixture.
pub open spec fn contract_has_stress(ops: Seq<MeasurementOperationSpecView>) -> bool {
    exists|i: int, j: int|
        #![trigger ops[i].fixture_scales[j]]
        0 <= i < ops.len() && 0 <= j < ops[i].fixture_scales.len() && ops[i].fixture_scales[j]
            == MeasurementFixtureScale::Stress
}

/// The limitations the run declares, in text order and without repeats.
pub open spec fn declared_limitations_spec(append: CandidateRunArtifactsView, sqlite: CandidateRunArtifactsView) -> Seq<
    Seq<char>,
> {
    text_if(any_unavailable(append.measurements, true), "bytes_read unavailable"@) + text_if(
        any_unavailable(append.measurements, false),
        "bytes_written unavailable"@,
    ) + text_if(
        any_compaction_skipped(append.measurements) || any_compaction_skipped(sqlite.measurements),
        "compaction_where_supported unsupported for measured candidates"@,
    ) + text_if(!contract_has_stress(measured_operations_spec()), "stress fixture not implemented"@)
}

fn any_compaction_skipped_exec(rows: &Vec<MeasurementAggregate>) -> (r: bool)
    ensures
        r == any_compaction_skipped(vec_view(rows@)),
{
    let ghost rv = vec_view(rows@);
    let mut k: usize = 0;
    while k < rows.len()
        invariant
            k <= rows.len(),
            rv == vec_view(rows@),
            forall|j: int| 0 <= j < k ==> !compaction_skipped(#[trigger] rv[j]),
        decreases rows.len() - k,
    {
        if is_compaction_skipped(&rows[k]) {
            proof {
                assert(compaction_skipped(rv[k as int]));
            }
            return true;
        }
        k = k + 1;
    }
    false
}

fn any_unavailable_exec(rows: &Vec<MeasurementAggregate>, read: bool) -> (r: bool)
    ensures
        r == any_unavailable(vec_view(rows@), read),
{
    let ghost rv = vec_view(rows@);
    let mut k: usize = 0;
    while k < rows.len()
        invariant
            k <= rows.len(),
            rv == vec_view(rows@),
            forall|j: int|
                0 <= j < k ==> !(if read {
                    (#[trigger] rv[j]).bytes_read.status == "unavailable"@
                } else {
                    rv[j].bytes_written.status == "unavailable"@
                }),
        decreases rows.len() - k,
    {
        let status = if read {
            &rows[k].bytes_read.status
        } else {
            &rows[k].bytes_written.status
        };
        proof {
            assert(rv[k as int] == rows@[k as int]@);
        }
        if str_eq(status.as_str(), "unavailable") {
            return true;
        }
        k = k + 1;
    }
    false
}

fn has_stress(ops: &Vec<MeasurementOperationSpec>) -> (r: bool)
    ensures
        r == contract_has_stress(vec_view(ops@)),
{
    let ghost ov = vec_view(ops@);
    let mut i: usize = 0;
    while i < ops.len()
        invariant
            i <= ops.len(),
            ov == vec_view(ops@),
            forall|a: int, b: int|
                #![trigger ov[a].fixture_scales[b]]
                0 <= a < i && 0 <= b < ov[a].fixture_scales.len() ==> ov[a].fixture_scales[b]
                    != MeasurementFixtureScale::Stress,
        decreases ops.len() - i,
    {
        proof {
            assert(ov[i as int] == ops@[i as int]@);
        }
        let mut j: usize = 0;
        while j < ops[i].fixture_scales.len()
            invariant
                i < ops.len(),
                j <= ops@[i as int].fixture_scales@.len(),
                ov == vec_view(ops@),
                ov[i as int] == ops@[i as int]@,
                forall|b: int| 0 <= b < j ==> ov[i as int].fixture_scales[b] != MeasurementFixtureScale::Stress,
            decreases ops@[i as int].fixture_scales@.len() - j,
        {
            if ops[i].fixture_scales[j] == MeasurementFixtureScale::Stress {
                return true;
            }
            j = j + 1;
        }
        i = i + 1;
    }
    false
}

fn declared_limitations(
    append: &CandidateRunArtifacts,
    sqlite: &CandidateRunArtifacts,
    ops: &Vec<MeasurementOperationSpec>,
) -> (r: Vec<String>)
    requires
        vec_view(ops@) == measured_operations_spec(),
    ensures
        vec_view(r@) == declared_limitations_spec(append@, sqlite@),
{
    let mut out: Vec<String> = Vec::new();
    if any_unavailable_exec(&append.measurements, true) {
        out.push(String::from_str("bytes_read unavailable"));
    }
    if any_unavailable_exec(&append.measurements, false) {
        out.push(String::from_str("bytes_written unavailable"));
    }
    if any_compaction_skipped_exec(&append.measurements) || any_compaction_skipped_exec(&sqlite.measurements) {
        out.push(String::from_str("compaction_where_supported unsupported for measured candidates"));
    }
    if !has_stress(ops) {
        out.push(String::from_str("stress fixture not implemented"));
    }
    proof {
        assert(vec_view(out@) =~= declared_limitations_spec(append@, sqlite@));
    }
    out
}

/// The readiness assessment of the two candidates' runs.
pub open spec fn readiness_spec(append: CandidateRunArtifactsView, sqlite: CandidateRunArtifactsView) -> ReadinessAssessmentView {
    let n = catalog_v3_spec().len() as int;
    let blockers = texts_upto(n, scenario_blockers_fn(append.scenario_results)) + texts_upto(
        n,
        scenario_blockers_fn(sqlite.scenario_results),
    ) + measurement_blockers(append) + measurement_blockers(sqlite);
    let verdict = if blockers.len() == 0 {
        "ready_for_owner_decision"@
    } else {
        "not_ready"@
    };
    ReadinessAssessmentView {
        mechanism_comparison_readiness: verdict,
        mechanism_selection_readiness: verdict,
        limitations: texts_upto(n, scenario_limitations_fn(append.scenario_results)) + texts_upto(
            n,
            scenario_limitations_fn(sqlite.scenario_results),
        ) + declared_limitations_spec(append, sqlite),
        blockers,
    }
}

/// Assesses whether the two candidates' runs are complete enough for an owner
/// decision: every required scenario passed, every measurement complete.
pub fn assess_readiness(append: &CandidateRunArtifacts, sqlite: &CandidateRunArtifacts) -> (r: ReadinessAssessment)
    ensures
        r@ == readiness_spec(append@, sqlite@),
{
    let catalog = scenario_contract_v3();
    let contract = comparative_measurement_contract();
    let mut limitations: Vec<String> = Vec::new();
    let mut blockers: Vec<String> = Vec::new();
    proof {
        assert(vec_view(limitations@) =~= Seq::<Seq<char>>::empty());
        assert(vec_view(blockers@) =~= Seq::<Seq<char>>::empty());
    }
    scenario_readiness(&append.scenario_results, &catalog, &mut limitations, &mut blockers);
    scenario_readiness(&sqlite.scenario_results, &catalog, &mut limitations, &mut blockers);
    measurement_readiness(append, &contract.operations, &mut blockers);
    measurement_readiness(sqlite, &contract.operations, &mut blockers);
    let declared = declared_limitations(append, sqlite, &contract.operations);
    push_texts(&mut limitations, declared);
    let ready = blockers.len() == 0;
    let verdict = if ready {
        "ready_for_owner_decision"
    } else {
        "not_ready"
    };
    ReadinessAssessment {
        mechanism_comparison_readiness: String::from_str(verdict),
        mechanism_selection_readiness: String::from_str(verdict),
        limitations,
        blockers,
    }
}


proof fn lemma_texts_upto_empty(n: int, f: spec_fn(int) -> Seq<Seq<char>>)
    requires
        texts_upto(n, f).len() == 0,
    ensures
        forall|i: int| 0 <= i < n ==> (#[trigger] f(i)).len() == 0,
    decreases n,
{
    if n > 0 {
        lemma_texts_upto_empty(n - 1, f);
    }
}

proof fn lemma_first_result_found(rows: Seq<NormalizedScenarioResultView>, id: Seq<char>)
    ensures
        match first_result_index(rows, id) {
            Some(i) => i < rows.len() && rows[i as int].scenario_id == id && forall|m: int|
                0 <= m < i ==> (#[trigger] rows[m]).scenario_id != id,
            None => forall|m: int| 0 <= m < rows.len() ==> (#[trigger] rows[m]).scenario_id != id,
        },
    decreases rows.len(),
{
    if rows.len() > 0 && rows[0].scenario_id != id {
        let rest = rows.drop_first();
        lemma_first_result_found(rest, id);
        assert forall|m: int| 1 <= m < rows.len() implies rows[m] == rest[m - 1] by {}
    }
}

proof fn lemma_first_aggregate_found(rows: Seq<MeasurementAggregateView>, operation: Seq<char>, scale: MeasurementFixtureScale)
    ensures
        match first_aggregate_index(rows, operation, scale) {
            Some(i) => i < rows.len() && rows[i as int].operation == operation && rows[i as int].fixture_scale == scale
                && forall|m: int|
                0 <= m < i ==> !((#[trigger] rows[m]).operation == operation && rows[m].fixture_scale == scale),
            None => forall|m: int|
                0 <= m < rows.len() ==> !((#[trigger] rows[m]).operation == operation && rows[m].fixture_scale == scale),
        },
    decreases rows.len(),
{
    if rows.len() > 0 && !(rows[0].operation == operation && rows[0].fixture_scale == scale) {
        let rest = rows.drop_first();
        lemma_first_aggregate_found(rest, operation, scale);
        assert forall|m: int| 1 <= m < rows.len() implies rows[m] == rest[m - 1] by {}
    }
}

/// The first result row of a scenario, if any, is at `k`.
pub open spec fn first_row_at(rows: Seq<NormalizedScenarioResultView>, id: Seq<char>, k: int) -> bool {
    &&& 0 <= k < rows.len()
    &&& rows[k].scenario_id == id
    &&& forall|m: int| 0 <= m < k ==> (#[trigger] rows[m]).scenario_id != id
}

/// Every required scenario of the catalog has a result row, and its first
/// row passed.
pub open spec fn required_scenarios_passed(rows: Seq<NormalizedScenarioResultView>) -> bool {
    forall|i: int|
        0 <= i < catalog_v3_spec().len() && (#[trigger] catalog_v3_spec()[i]).requirement
            == ScenarioRequirementLevel::Required ==> exists|k: int|
            first_row_at(rows, catalog_v3_spec()[i].scenario_id, k) && rows[k].status == ScenarioExecutionStatus::Passed
}

/// A candidate is eligible for equivalent execution only if every required
/// scenario of the catalog has a result row whose (first) status is Passed
/// and it has no correctness disqualification.
pub proof fn law_eligible_only_with_required_scenarios_passed(a: CandidateRunArtifactsView)
    ensures
        eligibility_spec(a).status == CandidateEligibilityStatus::EligibleForEquivalentExecution ==> (
        required_scenarios_passed(a.scenario_results) && a.disqualifications.len() == 0),
{
    let rows = a.scenario_results;
    let n = catalog_v3_spec().len() as int;
    if eligibility_spec(a).status == CandidateEligibilityStatus::EligibleForEquivalentExecution {
        let f = eligibility_fn(rows);
        assert(texts_upto(n, f).len() == 0);
        lemma_texts_upto_empty(n, f);
        assert forall|i: int|
            0 <= i < n && (#[trigger] catalog_v3_spec()[i]).requirement == ScenarioRequirementLevel::Required implies exists|
            k: int,
        | first_row_at(rows, catalog_v3_spec()[i].scenario_id, k) && rows[k].status == ScenarioExecutionStatus::Passed by {
            let sc = catalog_v3_spec()[i];
            assert(f(i).len() == 0);
            lemma_first_result_found(rows, sc.scenario_id);
            let k = first_result_index(rows, sc.scenario_id).unwrap() as int;
            assert(first_row_at(rows, sc.scenario_id, k));
        }
    }
}

/// The first aggregate of an operation at a scale is at `k`, and it is
/// complete: an unsupported compaction, or the contract's sample count with no
/// failure and a positive peak memory.
pub open spec fn complete_aggregate_at(
    c: CandidateRunArtifactsView,
    op: MeasurementOperationSpecView,
    scale: MeasurementFixtureScale,
    k: int,
) -> bool {
    let m = c.measurements[k];
    &&& 0 <= k < c.measurements.len()
    &&& m.operation == op.operation
    &&& m.fixture_scale == scale
    &&& forall|q: int|
        0 <= q < k ==> !((#[trigger] c.measurements[q]).operation == op.operation && c.measurements[q].fixture_scale
            == scale)
    &&& (m.operation == "compaction_where_supported"@ && m.count == 0) || (m.count == op.sample_count
        && m.failure_count == 0 && peak_memory_ok(m.peak_memory_bytes))
}

/// Every contract measurement of a candidate (each operation at each of its
/// scales) has a complete first aggregate.
pub open spec fn contract_measurements_complete(c: CandidateRunArtifactsView) -> bool {
    forall|i: int, j: int|
        #![trigger measured_operations_spec()[i].fixture_scales[j]]
        0 <= i < measured_operations_spec().len() && 0 <= j < measured_operations_spec()[i].fixture_scales.len()
            ==> exists|k: int|
            #[trigger] complete_aggregate_at(c, measured_operations_spec()[i], measured_operations_spec()[i].fixture_scales[j], k)
}

proof fn lemma_measurements_complete(c: CandidateRunArtifactsView)
    requires
        measurement_blockers(c).len() == 0,
    ensures
        contract_measurements_complete(c),
{
    let ops = measured_operations_spec();
    lemma_texts_upto_empty(ops.len() as int, measurement_blockers_fn(c));
    assert forall|i: int, j: int|
        #![trigger measured_operations_spec()[i].fixture_scales[j]]
        0 <= i < ops.len() && 0 <= j < ops[i].fixture_scales.len() implies exists|k: int|
        #[trigger] complete_aggregate_at(c, measured_operations_spec()[i], measured_operations_spec()[i].fixture_scales[j], k) by {
        let op = ops[i];
        let scale = op.fixture_scales[j];
        assert(measurement_blockers_fn(c)(i).len() == 0);
        lemma_texts_upto_empty(op.fixture_scales.len() as int, operation_blockers_fn(c, op));
        assert(operation_blockers_fn(c, op)(j).len() == 0);
        assert(measurement_blockers_for(c, op, scale).len() == 0);
        lemma_first_aggregate_found(c.measurements, op.operation, scale);
        let k = first_aggregate_index(c.measurements, op.operation, scale).unwrap() as int;
        let m = c.measurements[k];
        assert(aggregate_blockers(m, op.sample_count).len() == 0);
        assert(complete_aggregate_at(c, op, scale, k));
    }
}

/// The comparison is ready for an owner decision only if, for both
/// candidates, every required scenario's first result row passed and every
/// contract measurement has a complete first aggregate: no failed sample,
/// the contract's sample count and a positive peak memory, or an unsupported
/// compaction.
pub proof fn law_ready_only_with_complete_evidence(append: CandidateRunArtifactsView, sqlite: CandidateRunArtifactsView)
    ensures
        readiness_spec(append, sqlite).mechanism_comparison_readiness == "ready_for_owner_decision"@ ==> {
            &&& required_scenarios_passed(append.scenario_results)
            &&& required_scenarios_passed(sqlite.scenario_results)
            &&& contract_measurements_complete(append)
            &&& contract_measurements_complete(sqlite)
        },
{
    reveal_strlit("ready_for_owner_decision");
    reveal_strlit("not_ready");
    assert("ready_for_owner_decision"@.len() != "not_ready"@.len());
    let n = catalog_v3_spec().len() as int;
    if readiness_spec(append, sqlite).mechanism_comparison_readiness == "ready_for_owner_decision"@ {
        let sa = texts_upto(n, scenario_blockers_fn(append.scenario_results));
        let ss = texts_upto(n, scenario_blockers_fn(sqlite.scenario_results));
        assert(readiness_spec(append, sqlite).blockers.len() == 0);
        assert(sa.len() == 0 && ss.len() == 0);
        assert(measurement_blockers(append).len() == 0 && measurement_blockers(sqlite).len() == 0);
        lemma_measurements_complete(append);
        lemma_measurements_complete(sqlite);
        lemma_scenarios_passed(append.scenario_results);
        lemma_scenarios_passed(sqlite.scenario_results);
    }
}

proof fn lemma_scenarios_passed(rows: Seq<NormalizedScenarioResultView>)
    requires
        texts_upto(catalog_v3_spec().len() as int, scenario_blockers_fn(rows)).len() == 0,
    ensures
        required_scenarios_passed(rows),
{
    let n = catalog_v3_spec().len() as int;
    let f = scenario_blockers_fn(rows);
    lemma_texts_upto_empty(n, f);
    assert forall|i: int|
        0 <= i < n && (#[trigger] catalog_v3_spec()[i]).requirement == ScenarioRequirementLevel::Required implies exists|
        k: int,
    | first_row_at(rows, catalog_v3_spec()[i].scenario_id, k) && rows[k].status == ScenarioExecutionStatus::Passed by {
        let sc = catalog_v3_spec()[i];
        assert(f(i).len() == 0);
        lemma_first_result_found(rows, sc.scenario_id);
        let k = first_result_index(rows, sc.scenario_id).unwrap() as int;
        assert(first_row_at(rows, sc.scenario_id, k));
    }
}


proof fn lemma_texts_upto_all_empty(n: int, f: spec_fn(int) -> Seq<Seq<char>>)
    requires
        forall|i: int| 0 <= i < n ==> (#[trigger] f(i)).len() == 0,
    ensures
        texts_upto(n, f).len() == 0,
    decreases n,
{
    if n > 0 {
        lemma_texts_upto_all_empty(n - 1, f);
        assert(f(n - 1).len() == 0);
    }
}

/// No capability-dependent scenario's first result row failed.
pub open spec fn capability_scenarios_not_failed(rows: Seq<NormalizedScenarioResultView>) -> bool {
    forall|i: int, k: int|
        0 <= i < catalog_v3_spec().len() && (#[trigger] catalog_v3_spec()[i]).requirement
            == ScenarioRequirementLevel::CapabilityDependent && #[trigger] first_row_at(
            rows,
            catalog_v3_spec()[i].scenario_id,
            k,
        ) ==> rows[k].status != ScenarioExecutionStatus::Failed
}

/// A candidate whose required scenarios all passed, whose capability-dependent
/// scenarios did not fail, and which has no correctness disqualification is
/// eligible for equivalent execution, with the standard rationale.
pub proof fn law_eligible_when_required_scenarios_passed(a: CandidateRunArtifactsView)
    requires
        required_scenarios_passed(a.scenario_results),
        capability_scenarios_not_failed(a.scenario_results),
        a.disqualifications.len() == 0,
    ensures
        eligibility_spec(a).status == CandidateEligibilityStatus::EligibleForEquivalentExecution,
        eligibility_spec(a).rationale == "required scenarios executed with valid evidence"@,
{
    let rows = a.scenario_results;
    let n = catalog_v3_spec().len() as int;
    let f = eligibility_fn(rows);
    assert forall|i: int| 0 <= i < n implies (#[trigger] f(i)).len() == 0 by {
        let sc = catalog_v3_spec()[i];
        lemma_first_result_found(rows, sc.scenario_id);
        match first_result_index(rows, sc.scenario_id) {
            None => {
                if sc.requirement == ScenarioRequirementLevel::Required {
                    let k = choose|k: int| first_row_at(rows, sc.scenario_id, k) && rows[k].status
                        == ScenarioExecutionStatus::Passed;
                    assert(rows[k].scenario_id == sc.scenario_id);
                }
            },
            Some(k0) => {
                assert(first_row_at(rows, sc.scenario_id, k0 as int));
                if sc.requirement == ScenarioRequirementLevel::Required {
                    let k = choose|k: int| first_row_at(rows, sc.scenario_id, k) && rows[k].status
                        == ScenarioExecutionStatus::Passed;
                    if k < k0 {
                        assert(rows[k].scenario_id == sc.scenario_id);
                    } else if k0 < k {
                        assert(rows[k0 as int].scenario_id == sc.scenario_id);
                    }
                }
            },
        }
    }
    lemma_texts_upto_all_empty(n, f);
}

/// Every capability-dependent scenario's first result row, if any, passed or
/// was unsupported.
pub open spec fn capability_scenarios_passed_or_unsupported(rows: Seq<NormalizedScenarioResultView>) -> bool {
    forall|i: int, k: int|
        0 <= i < catalog_v3_spec().len() && (#[trigger] catalog_v3_spec()[i]).requirement
            == ScenarioRequirementLevel::CapabilityDependent && #[trigger] first_row_at(
            rows,
            catalog_v3_spec()[i].scenario_id,
            k,
        ) ==> rows[k].status == ScenarioExecutionStatus::Passed || rows[k].status == ScenarioExecutionStatus::Unsupported
}

proof fn lemma_scenarios_ready(rows: Seq<NormalizedScenarioResultView>)
    requires
        required_scenarios_passed(rows),
        capability_scenarios_passed_or_unsupported(rows),
    ensures
        texts_upto(catalog_v3_spec().len() as int, scenario_blockers_fn(rows)).len() == 0,
{
    let n = catalog_v3_spec().len() as int;
    let f = scenario_blockers_fn(rows);
    assert forall|i: int| 0 <= i < n implies (#[trigger] f(i)).len() == 0 by {
        let sc = catalog_v3_spec()[i];
        lemma_first_result_found(rows, sc.scenario_id);
        match first_result_index(rows, sc.scenario_id) {
            None => {
                if sc.requirement == ScenarioRequirementLevel::Required {
                    let k = choose|k: int| first_row_at(rows, sc.scenario_id, k) && rows[k].status
                        == ScenarioExecutionStatus::Passed;
                    assert(rows[k].scenario_id == sc.scenario_id);
                }
            },
            Some(k0) => {
                assert(first_row_at(rows, sc.scenario_id, k0 as int));
                if sc.requirement == ScenarioRequirementLevel::Required {
                    let k = choose|k: int| first_row_at(rows, sc.scenario_id, k) && rows[k].status
                        == ScenarioExecutionStatus::Passed;
                    if k < k0 {
                        assert(rows[k].scenario_id == sc.scenario_id);
                    } else if k0 < k {
                        assert(rows[k0 as int].scenario_id == sc.scenario_id);
                    }
                }
            },
        }
    }
    lemma_texts_upto_all_empty(n, f);
}

proof fn lemma_measurements_ready(c: CandidateRunArtifactsView)
    requires
        contract_measurements_complete(c),
    ensures
        measurement_blockers(c).len() == 0,
{
    let ops = measured_operations_spec();
    assert forall|i: int| 0 <= i < ops.len() implies (#[trigger] measurement_blockers_fn(c)(i)).len() == 0 by {
        let op = ops[i];
        let g = operation_blockers_fn(c, op);
        assert forall|j: int| 0 <= j < op.fixture_scales.len() implies (#[trigger] g(j)).len() == 0 by {
            let scale = op.fixture_scales[j];
            assert(measured_operations_spec()[i].fixture_scales[j] == scale);
            let k = choose|k: int| #[trigger] complete_aggregate_at(c, op, scale, k);
            lemma_first_aggregate_found(c.measurements, op.operation, scale);
            match first_aggregate_index(c.measurements, op.operation, scale) {
                None => {
                    assert(c.measurements[k].operation == op.operation);
                },
                Some(k0) => {
                    if k < k0 {
                        assert(c.measurements[k].operation == op.operation);
                    } else if k0 < k {
                        assert(c.measurements[k0 as int].operation == op.operation);
                    }
                    assert(k0 == k);
                },
            }
        }
        lemma_texts_upto_all_empty(op.fixture_scales.len() as int, g);
    }
    lemma_texts_upto_all_empty(ops.len() as int, measurement_blockers_fn(c));
}

/// When both candidates' required scenarios passed, their capability-dependent
/// scenarios passed or were unsupported, and every contract measurement of
/// both has a complete first aggregate, the comparison is ready for an owner
/// decision and reports no blocker.
pub proof fn law_ready_with_complete_evidence(append: CandidateRunArtifactsView, sqlite: CandidateRunArtifactsView)
    requires
        required_scenarios_passed(append.scenario_results),
        required_scenarios_passed(sqlite.scenario_results),
        capability_scenarios_passed_or_unsupported(append.scenario_results),
        capability_scenarios_passed_or_unsupported(sqlite.scenario_results),
        contract_measurements_complete(append),
        contract_measurements_complete(sqlite),
    ensures
        readiness_spec(append, sqlite).mechanism_comparison_readiness == "ready_for_owner_decision"@,
        readiness_spec(append, sqlite).blockers.len() == 0,
{
    lemma_scenarios_ready(append.scenario_results);
    lemma_scenarios_ready(sqlite.scenario_results);
    lemma_measurements_ready(append);
    lemma_measurements_ready(sqlite);
}

} // verus!
