//! The decisions of a scenario run: which procedure a scenario takes, when a
//! capability requirement stops it, what each observed answer of a candidate
//! means, and how outcomes become results and disqualifications. Opening,
//! tampering with and closing storage happens outside, and its answers are
//! handed in here.
use vstd::prelude::*;
use crate::evidence_01c::candidate::{CurrentContractCandidate, CurrentContractCandidateKind};
use crate::evidence_01c::scenario_observation::{
    corruption_tamper_limitation, corruption_tamper_limitation_spec, ScenarioOutcome, ScenarioOutcomeView,
    APPEND_STALE_ASYMMETRY_LIMITATION, OBSERVED_OPEN_NORMAL, OBSERVED_OPEN_UNSUPPORTED_VERSION,
    OBSERVED_RECOVERY_NONE, OBSERVED_RECOVERY_UNSUPPORTED_VERSION,
};
use crate::evidence_01c::types::{
    fixture_scale_label, fixture_scale_label_spec, CorrectnessDisqualification, CorrectnessDisqualificationView,
    NormalizedScenarioResult, NormalizedScenarioResultView, ScenarioExecutionStatus,
};
use crate::measurement::MeasurementFixtureScale;
use crate::model::{normalize_view, vec_view, CurrentContractState, CurrentContractStateView, EvidenceDurableCommandTokensView};
use crate::scenario_contract::ScenarioContractV3;
use crate::sqlite_authority::{
    derive_duplicate_evidence_writer_token, duplicate_writer_token_spec, CurrentContractPreconditions,
    CurrentContractPreconditionsView,
};
use crate::text::{concat2, concat3, contains_text, contains_text_spec, has_prefix_spec, str_eq, strip_prefix};

verus! {

/// The procedure a scenario is exercised by.
#[derive(Debug, Clone, Copy, PartialEq, Eq, Structural)]
pub enum ScenarioRoute {
    Baseline,
    Duplication,
    DerivedRebuild,
    UnknownFormat,
    MalformedFormat,
    ConcurrentWriter,
    ReadOnlyDuringWriter,
    FixtureRoundTrip,
    StalePrecondition,
    NegativeCorruption,
    InterruptedReviewTransition,
    InterruptedReuseTransition,
    WriterTakeover,
    InterruptedCompaction,
    InterruptedCleanup,
}

/// The procedure of a scenario: the named ones first, then by prefix
/// (`append-` round trips, `stale-` commands), then any id mentioning
/// corruption or malformation, then the interruption scenarios; any other
/// scenario is a fixture round trip.
pub open spec fn scenario_route_spec(id: Seq<char>) -> ScenarioRoute {
    if id == "baseline-create-open-close"@ {
        ScenarioRoute::Baseline
    } else if id == "semantic-duplication"@ {
        ScenarioRoute::Duplication
    } else if id == "derived-state-corruption-and-rebuild"@ {
        ScenarioRoute::DerivedRebuild
    } else if id == "unknown-newer-format"@ {
        ScenarioRoute::UnknownFormat
    } else if id == "malformed-format-version"@ {
        ScenarioRoute::MalformedFormat
    } else if id == "concurrent-writer-attempt"@ {
        ScenarioRoute::ConcurrentWriter
    } else if id == "read-only-open-during-writer"@ {
        ScenarioRoute::ReadOnlyDuringWriter
    } else if has_prefix_spec(id, "append-"@) {
        ScenarioRoute::FixtureRoundTrip
    } else if has_prefix_spec(id, "stale-"@) {
        ScenarioRoute::StalePrecondition
    } else if contains_text_spec(id, "corruption"@) || contains_text_spec(id, "malformed"@) {
        ScenarioRoute::NegativeCorruption
    } else if id == "interrupted-authoritative-review-transition"@ {
        ScenarioRoute::InterruptedReviewTransition
    } else if id == "interrupted-authoritative-reuse-transition"@ {
        ScenarioRoute::InterruptedReuseTransition
    } else if id == "writer-crash-and-takeover"@ {
        ScenarioRoute::WriterTakeover
    } else if id == "interrupted-compaction"@ {
        ScenarioRoute::InterruptedCompaction
    } else if id == "interrupted-cleanup"@ {
        ScenarioRoute::InterruptedCleanup
    } else {
        ScenarioRoute::FixtureRoundTrip
    }
}

/// The procedure a scenario is exercised by.
pub fn scenario_route(scenario_id: &str) -> (r: ScenarioRoute)
    ensures
        r == scenario_route_spec(scenario_id@),
{
    if str_eq(scenario_id, "baseline-create-open-close") {
        ScenarioRoute::Baseline
    } else if str_eq(scenario_id, "semantic-duplication") {
        ScenarioRoute::Duplication
    } else if str_eq(scenario_id, "derived-state-corruption-and-rebuild") {
        ScenarioRoute::DerivedRebuild
    } else if str_eq(scenario_id, "unknown-newer-format") {
        ScenarioRoute::UnknownFormat
    } else if str_eq(scenario_id, "malformed-format-version") {
        ScenarioRoute::MalformedFormat
    } else if str_eq(scenario_id, "concurrent-writer-attempt") {
        ScenarioRoute::ConcurrentWriter
    } else if str_eq(scenario_id, "read-only-open-during-writer") {
        ScenarioRoute::ReadOnlyDuringWriter
    } else if strip_prefix(scenario_id, "append-").is_some() {
        ScenarioRoute::FixtureRoundTrip
    } else if strip_prefix(scenario_id, "stale-").is_some() {
        ScenarioRoute::StalePrecondition
    } else if contains_text(scenario_id, "corruption") || contains_text(scenario_id, "malformed") {
        ScenarioRoute::NegativeCorruption
    } else if str_eq(scenario_id, "interrupted-authoritative-review-transition") {
        ScenarioRoute::InterruptedReviewTransition
    } else if str_eq(scenario_id, "interrupted-authoritative-reuse-transition") {
        ScenarioRoute::InterruptedReuseTransition
    } else if str_eq(scenario_id, "writer-crash-and-takeover") {
        ScenarioRoute::WriterTakeover
    } else if str_eq(scenario_id, "interrupted-compaction") {
        ScenarioRoute::InterruptedCompaction
    } else if str_eq(scenario_id, "interrupted-cleanup") {
        ScenarioRoute::InterruptedCleanup
    } else {
        ScenarioRoute::FixtureRoundTrip
    }
}

/// A failed outcome with a code.
pub open spec fn failed_outcome(code: Seq<char>) -> ScenarioOutcomeView {
    ScenarioOutcomeView {
        status: ScenarioExecutionStatus::Failed,
        oracle_compare: false,
        recovery_class: OBSERVED_RECOVERY_NONE@,
        open_state: OBSERVED_OPEN_NORMAL@,
        failure_code: Some(code),
        limitations: Seq::empty(),
    }
}

/// An unsupported outcome with its limitations.
pub open spec fn unsupported_outcome(limitations: Seq<Seq<char>>) -> ScenarioOutcomeView {
    ScenarioOutcomeView {
        status: ScenarioExecutionStatus::Unsupported,
        oracle_compare: false,
        recovery_class: OBSERVED_RECOVERY_NONE@,
        open_state: OBSERVED_OPEN_NORMAL@,
        failure_code: None,
        limitations,
    }
}

/// A passed outcome, without an oracle comparison, with its limitations.
pub open spec fn passed_with_limitations_outcome(limitations: Seq<Seq<char>>) -> ScenarioOutcomeView {
    ScenarioOutcomeView {
        status: ScenarioExecutionStatus::Passed,
        oracle_compare: false,
        recovery_class: OBSERVED_RECOVERY_NONE@,
        open_state: OBSERVED_OPEN_NORMAL@,
        failure_code: None,
        limitations,
    }
}

/// A passed outcome: the candidate refused to open an unsupported version.
pub open spec fn unsupported_version_outcome(code: Seq<char>) -> ScenarioOutcomeView {
    ScenarioOutcomeView {
        status: ScenarioExecutionStatus::Passed,
        oracle_compare: false,
        recovery_class: OBSERVED_RECOVERY_UNSUPPORTED_VERSION@,
        open_state: OBSERVED_OPEN_UNSUPPORTED_VERSION@,
        failure_code: Some(code),
        limitations: Seq::empty(),
    }
}

/// `capability <c> not declared`.
pub open spec fn not_declared_spec(capability: Seq<char>) -> Seq<char> {
    "capability "@ + capability + " not declared"@
}

/// What a scenario's capability requirement decides before the scenario runs:
/// nothing where there is none or the candidate declares it; an unsupported
/// outcome where the candidate does not declare it; a failure for a
/// requirement nobody knows.
pub open spec fn capability_gate_spec(
    capability: Option<Seq<char>>,
    compaction: bool,
    cleanup: bool,
    ownership_loss: bool,
) -> Option<ScenarioOutcomeView> {
    match capability {
        None => None,
        Some(c) => {
            if c != "compaction_supported"@ && c != "destructive_cleanup_supported"@ && c
                != "verified_writer_ownership_loss"@ {
                Some(failed_outcome("unknown capability requirement "@ + c))
            } else if (c == "compaction_supported"@ && compaction) || (c == "destructive_cleanup_supported"@
                && cleanup) || (c == "verified_writer_ownership_loss"@ && ownership_loss) {
                None
            } else {
                Some(unsupported_outcome(seq![not_declared_spec(c)]))
            }
        },
    }
}

/// `capability <c> not declared`.
fn not_declared(capability: &str) -> (r: String)
    ensures
        r@ == not_declared_spec(capability@),
{
    concat3("capability ", capability, " not declared")
}

/// The unsupported outcome of a capability the candidate does not declare.
fn undeclared_outcome(capability: &str) -> (r: ScenarioOutcome)
    ensures
        r@ == unsupported_outcome(seq![not_declared_spec(capability@)]),
{
    let limitations = vec![not_declared(capability)];
    proof {
        assert(vec_view(limitations@) =~= seq![not_declared_spec(capability@)]);
    }
    ScenarioOutcome::unsupported(limitations)
}

/// What a scenario's capability requirement decides before the scenario runs.
/// Neither candidate declares compaction or destructive cleanup; whether loss
/// of writer ownership is observable is handed in.
pub fn capability_gate(
    scenario: &ScenarioContractV3,
    candidate: &CurrentContractCandidate,
    writer_ownership_loss_observable: bool,
) -> (r: Option<ScenarioOutcome>)
    ensures
        r matches Some(o) ==> capability_gate_spec(
            scenario@.capability_requirement,
            false,
            false,
            writer_ownership_loss_observable,
        ) == Some(o@),
        r is None <==> capability_gate_spec(
            scenario@.capability_requirement,
            false,
            false,
            writer_ownership_loss_observable,
        ) is None,
{
    proof {
        reveal_strlit("compaction_supported");
        reveal_strlit("destructive_cleanup_supported");
        reveal_strlit("verified_writer_ownership_loss");
    }
    match &scenario.capability_requirement {
        None => None,
        Some(c) => {
            let cap = c.as_str();
            if str_eq(cap, "compaction_supported") {
                if candidate.compaction_supported() {
                    None
                } else {
                    Some(undeclared_outcome(cap))
                }
            } else if str_eq(cap, "destructive_cleanup_supported") {
                if candidate.destructive_cleanup_supported() {
                    None
                } else {
                    Some(undeclared_outcome(cap))
                }
            } else if str_eq(cap, "verified_writer_ownership_loss") {
                if writer_ownership_loss_observable {
                    None
                } else {
                    Some(undeclared_outcome(cap))
                }
            } else {
                let code = concat2("unknown capability requirement ", cap);
                Some(ScenarioOutcome::failed(code.as_str()))
            }
        },
    }
}

/// The result a candidate's outcome of a scenario is recorded as: scenarios
/// run on the small fixture, and no disqualification is attached here.
pub open spec fn observation_result_spec(
    candidate_id: Seq<char>,
    candidate_version: Seq<char>,
    scenario_id: Seq<char>,
    scenario_version: u32,
    platform: Seq<char>,
    elapsed_ms: u128,
    o: ScenarioOutcomeView,
) -> NormalizedScenarioResultView {
    NormalizedScenarioResultView {
        scenario_id,
        scenario_version,
        candidate_id,
        candidate_version,
        platform,
        fixture_scale: fixture_scale_label_spec(MeasurementFixtureScale::Small),
        status: o.status,
        oracle_compare: o.oracle_compare,
        recovery_class: o.recovery_class,
        open_state: o.open_state,
        failure_code: o.failure_code,
        elapsed_ms,
        correctness_disqualification: None,
        limitations: o.limitations,
    }
}

/// Records a candidate's outcome of a scenario as its result.
pub fn observation_to_result(
    candidate: &CurrentContractCandidate,
    scenario: &ScenarioContractV3,
    platform: &str,
    elapsed_ms: u128,
    observation: ScenarioOutcome,
) -> (r: NormalizedScenarioResult)
    ensures
        r@ == observation_result_spec(
            candidate.candidate_id_spec(),
            candidate.candidate_version_spec(),
            scenario@.scenario_id,
            scenario@.scenario_version,
            platform@,
            elapsed_ms,
            observation@,
        ),
{
    NormalizedScenarioResult {
        scenario_id: scenario.scenario_id.clone(),
        scenario_version: scenario.scenario_version,
        candidate_id: String::from_str(candidate.candidate_id()),
        candidate_version: String::from_str(candidate.candidate_version()),
        platform: String::from_str(platform),
        fixture_scale: fixture_scale_label(MeasurementFixtureScale::Small),
        status: observation.status,
        oracle_compare: observation.oracle_compare,
        recovery_class: observation.recovery_class,
        open_state: observation.open_state,
        failure_code: observation.failure_code,
        elapsed_ms,
        correctness_disqualification: None,
        limitations: observation.limitations,
    }
}

/// The disqualification a failed result carries: the scenario-failure gate,
/// with the failure code, or `unknown` where there is none.
pub open spec fn failure_disqualification(candidate_id: Seq<char>, r: NormalizedScenarioResultView) -> CorrectnessDisqualificationView {
    CorrectnessDisqualificationView {
        gate: "scenario_failure"@,
        scenario_id: Some(r.scenario_id),
        candidate_id,
        detail: match r.failure_code {
            Some(code) => code,
            None => "unknown"@,
        },
    }
}

/// One disqualification per failed result, in order.
pub open spec fn disqualifications_spec(
    candidate_id: Seq<char>,
    results: Seq<NormalizedScenarioResultView>,
) -> Seq<CorrectnessDisqualificationView> {
    results.filter(|r: NormalizedScenarioResultView| r.status == ScenarioExecutionStatus::Failed).map_values(
        |r: NormalizedScenarioResultView| failure_disqualification(candidate_id, r),
    )
}

/// The results of a candidate's run of the required scenarios, as executed
/// in contract order, with one disqualification per failed scenario.
pub fn run_required_scenarios(
    candidate: &CurrentContractCandidate,
    results: Vec<NormalizedScenarioResult>,
) -> (r: (Vec<NormalizedScenarioResult>, Vec<CorrectnessDisqualification>))
    ensures
        vec_view(r.0@) == vec_view(results@),
        vec_view(r.1@) == disqualifications_spec(candidate.candidate_id_spec(), vec_view(results@)),
{
    let ghost rv = vec_view(results@);
    let ghost cid = candidate.candidate_id_spec();
    let mut disqualifications: Vec<CorrectnessDisqualification> = Vec::new();
    let mut i: usize = 0;
    while i < results.len()
        invariant
            i <= results.len(),
            rv == vec_view(results@),
            cid == candidate.candidate_id_spec(),
            vec_view(disqualifications@) == disqualifications_spec(cid, rv.subrange(0, i as int)),
        decreases results.len() - i,
    {
        proof {
            let prefix = rv.subrange(0, i as int);
            assert(rv.subrange(0, i + 1) =~= prefix.push(rv[i as int]));
            prefix.lemma_filter_push(
                rv[i as int],
                |r: NormalizedScenarioResultView| r.status == ScenarioExecutionStatus::Failed,
            );
        }
        let result = &results[i];
        if result.status == ScenarioExecutionStatus::Failed {
            let detail = match &result.failure_code {
                Some(code) => code.clone(),
                None => String::from_str("unknown"),
            };
            let d = CorrectnessDisqualification {
                gate: String::from_str("scenario_failure"),
                scenario_id: Some(result.scenario_id.clone()),
                candidate_id: String::from_str(candidate.candidate_id()),
                detail,
            };
            let ghost before = vec_view(disqualifications@);
            disqualifications.push(d);
            proof {
                assert(d@ == failure_disqualification(cid, rv[i as int]));
                assert(vec_view(disqualifications@) =~= before.push(d@));
            }
        }
        i = i + 1;
    }
    proof {
        assert(rv.subrange(0, results.len() as int) =~= rv);
    }
    (results, disqualifications)
}

/// What an interrupted compaction or cleanup comes to: a capability the
/// candidate does not declare is unsupported; one it declares cannot be
/// executed by this harness and fails.
pub open spec fn capability_interrupt_spec(capability: Seq<char>, supported: bool) -> Result<ScenarioOutcomeView, Seq<char>> {
    if supported {
        Err("capability "@ + capability + " declared but not executable"@)
    } else {
        Ok(unsupported_outcome(seq![not_declared_spec(capability)]))
    }
}

/// What an interrupted compaction or cleanup comes to on a candidate.
pub fn run_capability_interrupt(candidate: &CurrentContractCandidate, capability: &str) -> (r: Result<
    ScenarioOutcome,
    String,
>)
    ensures
        r matches Ok(o) ==> capability_interrupt_spec(capability@, false) == Ok::<ScenarioOutcomeView, Seq<char>>(o@),
        r matches Err(e) ==> capability_interrupt_spec(capability@, false) == Err::<ScenarioOutcomeView, Seq<char>>(e@),
{
    let supported = if str_eq(capability, "compaction") {
        candidate.compaction_supported()
    } else if str_eq(capability, "cleanup") {
        candidate.destructive_cleanup_supported()
    } else {
        false
    };
    if supported {
        Err(concat3("capability ", capability, " declared but not executable"))
    } else {
        Ok(undeclared_outcome(capability))
    }
}

/// The code of a refusal, if the candidate refused.
pub open spec fn refusal_view(refusal: Option<&str>) -> Option<Seq<char>> {
    match refusal {
        Some(code) => Some(code@),
        None => None,
    }
}

/// What a second writer's attempt to open comes to where the first writer
/// must keep it out: refused as already open is as required; opening is the
/// given failure; any other refusal is a failure with its code.
pub open spec fn writer_refusal_spec(refusal: Option<Seq<char>>, when_opened: Seq<char>) -> Result<(), Seq<char>> {
    match refusal {
        None => Err(when_opened),
        Some(code) => if code == "writer-already-open"@ {
            Ok(())
        } else {
            Err(code)
        },
    }
}

/// What a second writer's attempt to open comes to: `refusal` is the code the
/// candidate refused with, or nothing where it opened.
pub fn expect_writer_refusal(refusal: Option<&str>, when_opened: &str) -> (r: Result<(), String>)
    ensures
        r is Ok <==> writer_refusal_spec(refusal_view(refusal), when_opened@) is Ok,
        r matches Err(e) ==> writer_refusal_spec(refusal_view(refusal), when_opened@) == Err::<(), Seq<char>>(e@),
{
    match refusal {
        None => Err(String::from_str(when_opened)),
        Some(code) => if str_eq(code, "writer-already-open") {
            Ok(())
        } else {
            Err(String::from_str(code))
        },
    }
}

/// What opening storage of a newer format for writing comes to: refused as
/// newer passes; opening fails; any other refusal fails with its code.
pub open spec fn unknown_format_spec(refusal: Option<Seq<char>>) -> Result<ScenarioOutcomeView, Seq<char>> {
    match refusal {
        None => Err("unknown_newer_format_writable"@),
        Some(code) => if code == "unsupported-newer-format"@ {
            Ok(unsupported_version_outcome(code))
        } else {
            Err(code)
        },
    }
}

/// What opening storage of a newer format for writing comes to.
pub fn unknown_format_outcome(refusal: Option<&str>) -> (r: Result<ScenarioOutcome, String>)
    ensures
        r matches Ok(o) ==> unknown_format_spec(refusal_view(refusal)) == Ok::<ScenarioOutcomeView, Seq<char>>(o@),
        r matches Err(e) ==> unknown_format_spec(refusal_view(refusal)) == Err::<ScenarioOutcomeView, Seq<char>>(e@),
{
    match refusal {
        None => Err(String::from_str("unknown_newer_format_writable")),
        Some(code) => if str_eq(code, "unsupported-newer-format") {
            Ok(ScenarioOutcome::unsupported_version_open(code))
        } else {
            Err(String::from_str(code))
        },
    }
}

/// The preconditions a stale command of a scenario carries, made from the
/// fresh ones: the append candidate checks one generation behind; the SQLite
/// candidate moves the head of the scenario's scope (or, for another scenario,
/// checks one generation behind).
pub open spec fn stale_preconditions_spec(
    kind: CurrentContractCandidateKind,
    scenario_id: Seq<char>,
    b: CurrentContractPreconditionsView,
) -> CurrentContractPreconditionsView {
    let behind = CurrentContractPreconditionsView {
        expected_generation: if b.expected_generation == 0 { 0 } else { (b.expected_generation - 1) as u64 },
        ..b
    };
    match kind {
        CurrentContractCandidateKind::Append => behind,
        CurrentContractCandidateKind::Sqlite => if scenario_id == "stale-review-ledger-command"@ {
            CurrentContractPreconditionsView { review_ledger_head: (b.review_ledger_head + 1) as usize, ..b }
        } else if scenario_id == "stale-reuse-governance-command"@ {
            CurrentContractPreconditionsView { reuse_governance_head: (b.reuse_governance_head + 1) as usize, ..b }
        } else if scenario_id == "stale-analysis-attachment-or-selection"@ {
            CurrentContractPreconditionsView { active_analysis_snapshot_identity: "analysis:stale"@, ..b }
        } else {
            behind
        },
    }
}

/// The preconditions a stale command of a scenario carries.
fn stale_preconditions(
    kind: CurrentContractCandidateKind,
    scenario_id: &str,
    baseline: &CurrentContractPreconditions,
) -> (r: CurrentContractPreconditions)
    requires
        kind == CurrentContractCandidateKind::Sqlite && scenario_id@ == "stale-review-ledger-command"@
            ==> baseline.review_ledger_head < usize::MAX,
        kind == CurrentContractCandidateKind::Sqlite && scenario_id@ == "stale-reuse-governance-command"@
            ==> baseline.reuse_governance_head < usize::MAX,
    ensures
        r@ == stale_preconditions_spec(kind, scenario_id@, baseline@),
{
    let mut r = baseline.clone();
    match kind {
        CurrentContractCandidateKind::Append => {
            r.expected_generation = baseline.expected_generation.saturating_sub(1);
        },
        CurrentContractCandidateKind::Sqlite => {
            if str_eq(scenario_id, "stale-review-ledger-command") {
                r.review_ledger_head = baseline.review_ledger_head + 1;
            } else if str_eq(scenario_id, "stale-reuse-governance-command") {
                r.reuse_governance_head = baseline.reuse_governance_head + 1;
            } else if str_eq(scenario_id, "stale-analysis-attachment-or-selection") {
                r.active_analysis_snapshot_identity = String::from_str("analysis:stale");
            } else {
                r.expected_generation = baseline.expected_generation.saturating_sub(1);
            }
        },
    }
    r
}

/// The preconditions a stale command of a scenario carries.
pub fn stale_preconditions_for_test(
    kind: CurrentContractCandidateKind,
    scenario_id: &str,
    baseline: &CurrentContractPreconditions,
) -> (r: CurrentContractPreconditions)
    requires
        kind == CurrentContractCandidateKind::Sqlite && scenario_id@ == "stale-review-ledger-command"@
            ==> baseline.review_ledger_head < usize::MAX,
        kind == CurrentContractCandidateKind::Sqlite && scenario_id@ == "stale-reuse-governance-command"@
            ==> baseline.reuse_governance_head < usize::MAX,
    ensures
        r@ == stale_preconditions_spec(kind, scenario_id@, baseline@),
{
    stale_preconditions(kind, scenario_id, baseline)
}

/// The refusal code a candidate answers a stale command of a scenario with.
pub open spec fn expected_stale_code_spec(kind: CurrentContractCandidateKind, scenario_id: Seq<char>) -> Seq<char> {
    match kind {
        CurrentContractCandidateKind::Sqlite => if scenario_id == "stale-review-ledger-command"@ {
            "stale-review-ledger-precondition"@
        } else if scenario_id == "stale-reuse-governance-command"@ {
            "stale-reuse-governance-precondition"@
        } else if scenario_id == "stale-analysis-attachment-or-selection"@ {
            "stale-analysis-selection-precondition"@
        } else {
            "stale-generation-precondition"@
        },
        CurrentContractCandidateKind::Append => "stale-append-precondition"@,
    }
}

/// The refusal code a candidate answers a stale command of a scenario with.
fn expected_stale_code(kind: CurrentContractCandidateKind, scenario_id: &str) -> (r: &'static str)
    ensures
        r@ == expected_stale_code_spec(kind, scenario_id@),
{
    match kind {
        CurrentContractCandidateKind::Sqlite => if str_eq(scenario_id, "stale-review-ledger-command") {
            "stale-review-ledger-precondition"
        } else if str_eq(scenario_id, "stale-reuse-governance-command") {
            "stale-reuse-governance-precondition"
        } else if str_eq(scenario_id, "stale-analysis-attachment-or-selection") {
            "stale-analysis-selection-precondition"
        } else {
            "stale-generation-precondition"
        },
        CurrentContractCandidateKind::Append => "stale-append-precondition",
    }
}

/// The refusal code a candidate answers a stale command of a scenario with.
pub fn expected_stale_code_for_test(kind: CurrentContractCandidateKind, scenario_id: &str) -> (r: &'static str)
    ensures
        r@ == expected_stale_code_spec(kind, scenario_id@),
{
    expected_stale_code(kind, scenario_id)
}

/// What a stale command comes to: refused with the expected code passes,
/// with the append candidate's note that it only exercises generation
/// staleness; applied, it fails naming the expected code; any other refusal
/// fails with its code.
pub open spec fn stale_outcome_spec(
    kind: CurrentContractCandidateKind,
    scenario_id: Seq<char>,
    refusal: Option<Seq<char>>,
) -> Result<ScenarioOutcomeView, Seq<char>> {
    let expected = expected_stale_code_spec(kind, scenario_id);
    match refusal {
        None => Err("expected "@ + expected),
        Some(code) => if code == expected {
            Ok(
                passed_with_limitations_outcome(
                    if kind == CurrentContractCandidateKind::Append && has_prefix_spec(scenario_id, "stale-"@) {
                        seq![APPEND_STALE_ASYMMETRY_LIMITATION@]
                    } else {
                        Seq::empty()
                    },
                ),
            )
        } else {
            Err(code)
        },
    }
}

/// What a stale command comes to: `refusal` is the code the candidate refused
/// it with, or nothing where it applied the command.
pub fn stale_precondition_outcome(
    kind: CurrentContractCandidateKind,
    scenario_id: &str,
    refusal: Option<&str>,
) -> (r: Result<ScenarioOutcome, String>)
    ensures
        r matches Ok(o) ==> stale_outcome_spec(kind, scenario_id@, refusal_view(refusal)) == Ok::<
            ScenarioOutcomeView,
            Seq<char>,
        >(o@),
        r matches Err(e) ==> stale_outcome_spec(kind, scenario_id@, refusal_view(refusal)) == Err::<
            ScenarioOutcomeView,
            Seq<char>,
        >(e@),
{
    let expected = expected_stale_code(kind, scenario_id);
    match refusal {
        None => Err(concat2("expected ", expected)),
        Some(code) => if str_eq(code, expected) {
            let mut limitations: Vec<String> = Vec::new();
            if kind == CurrentContractCandidateKind::Append && strip_prefix(scenario_id, "stale-").is_some() {
                limitations.push(String::from_str(APPEND_STALE_ASYMMETRY_LIMITATION));
            }
            proof {
                if kind == CurrentContractCandidateKind::Append && has_prefix_spec(scenario_id@, "stale-"@) {
                    assert(vec_view(limitations@) =~= seq![APPEND_STALE_ASYMMETRY_LIMITATION@]);
                } else {
                    assert(vec_view(limitations@) =~= Seq::<Seq<char>>::empty());
                }
            }
            Ok(ScenarioOutcome::passed_with_limitations(limitations))
        } else {
            Err(String::from_str(code))
        },
    }
}

/// The refusal code a candidate answers tampered canonical storage with.
pub open spec fn expected_corruption_refusal_code_spec(kind: CurrentContractCandidateKind) -> Seq<char> {
    match kind {
        CurrentContractCandidateKind::Append => "commit-fingerprint-mismatch"@,
        CurrentContractCandidateKind::Sqlite => "canonical-corruption"@,
    }
}

/// The refusal code a candidate answers tampered canonical storage with,
/// whatever the scenario.
pub fn expected_corruption_refusal_code(kind: CurrentContractCandidateKind, _scenario_id: &str) -> (r: &'static str)
    ensures
        r@ == expected_corruption_refusal_code_spec(kind),
{
    match kind {
        CurrentContractCandidateKind::Append => "commit-fingerprint-mismatch",
        CurrentContractCandidateKind::Sqlite => "canonical-corruption",
    }
}

/// Which test hook of a candidate damages its storage.
#[derive(Debug, Clone, Copy, PartialEq, Eq, Structural)]
pub enum TamperAction {
    DerivedCache,
    CanonicalProvenance,
    SourceLocator,
    ReviewLedgerOrder,
    ReuseGovernanceOrder,
    CommittedStateToken,
}

/// How the harness damages a candidate's storage for a scenario: the hook,
/// the arguments it is called with besides the open session, and the label
/// the damage is recorded under.
pub struct TamperPlan {
    pub action: TamperAction,
    pub arguments: Vec<String>,
    pub label: String,
}

/// The mathematical value of a [`TamperPlan`].
pub struct TamperPlanView {
    pub action: TamperAction,
    pub arguments: Seq<Seq<char>>,
    pub label: Seq<char>,
}

impl View for TamperPlan {
    type V = TamperPlanView;

    open spec fn view(&self) -> TamperPlanView {
        TamperPlanView { action: self.action, arguments: vec_view(self.arguments@), label: self.label@ }
    }
}

/// The damage the harness does for a scenario: the SQLite candidate has a
/// hook per scenario; the append candidate rewrites the writer token inside
/// its committed state, which its commit fingerprint no longer binds. Any
/// other pairing is refused.
pub open spec fn tamper_plan_spec(kind: CurrentContractCandidateKind, id: Seq<char>) -> Result<TamperPlanView, Seq<char>> {
    let unsupported = Err("unsupported tamper for "@ + id);
    match kind {
        CurrentContractCandidateKind::Sqlite => if id == "derived-state-corruption-and-rebuild"@ {
            Ok(
                TamperPlanView {
                    action: TamperAction::DerivedCache,
                    arguments: seq!["not-a-derived-projection"@],
                    label: "tamper_derived_cache_for_test"@,
                },
            )
        } else if id == "canonical-reference-corruption"@ {
            Ok(
                TamperPlanView {
                    action: TamperAction::CanonicalProvenance,
                    arguments: Seq::empty(),
                    label: "tamper_canonical_provenance_for_test:"@ + id,
                },
            )
        } else if id == "source-locator-corruption"@ {
            Ok(
                TamperPlanView {
                    action: TamperAction::SourceLocator,
                    arguments: Seq::empty(),
                    label: "tamper_source_locator_for_test:"@ + id,
                },
            )
        } else if id == "review-ledger-order-corruption"@ {
            Ok(
                TamperPlanView {
                    action: TamperAction::ReviewLedgerOrder,
                    arguments: Seq::empty(),
                    label: "tamper_review_ledger_order_for_test:"@ + id,
                },
            )
        } else if id == "reuse-governance-order-corruption"@ {
            Ok(
                TamperPlanView {
                    action: TamperAction::ReuseGovernanceOrder,
                    arguments: Seq::empty(),
                    label: "tamper_reuse_governance_order_for_test:"@ + id,
                },
            )
        } else {
            unsupported
        },
        CurrentContractCandidateKind::Append => {
            let replacement = if id == "canonical-reference-corruption"@ {
                Some("writer:canonical-tampered"@)
            } else if id == "source-locator-corruption"@ {
                Some("writer:locator-tampered"@)
            } else if id == "review-ledger-order-corruption"@ {
                Some("writer:ledger-order-tampered"@)
            } else if id == "reuse-governance-order-corruption"@ {
                Some("writer:governance-order-tampered"@)
            } else {
                None
            };
            match replacement {
                Some(token) => Ok(
                    TamperPlanView {
                        action: TamperAction::CommittedStateToken,
                        arguments: seq!["writer:promoted"@, token],
                        label: "tamper_committed_state_for_test:"@ + id,
                    },
                ),
                None => unsupported,
            }
        },
    }
}

/// A plan calling `action` with no arguments besides the session, labelled
/// `label_prefix` and the scenario.
fn hook_plan(action: TamperAction, label_prefix: &str, scenario_id: &str) -> (r: TamperPlan)
    ensures
        r@ == (TamperPlanView { action, arguments: Seq::empty(), label: label_prefix@ + scenario_id@ }),
{
    let arguments: Vec<String> = Vec::new();
    let r = TamperPlan { action, arguments, label: concat2(label_prefix, scenario_id) };
    proof {
        assert(r@.arguments =~= Seq::<Seq<char>>::empty());
    }
    r
}

/// How the harness damages a candidate's storage for a scenario.
pub fn tamper_plan(kind: CurrentContractCandidateKind, scenario_id: &str) -> (r: Result<TamperPlan, String>)
    ensures
        r matches Ok(p) ==> tamper_plan_spec(kind, scenario_id@) == Ok::<TamperPlanView, Seq<char>>(p@),
        r matches Err(e) ==> tamper_plan_spec(kind, scenario_id@) == Err::<TamperPlanView, Seq<char>>(e@),
{
    match kind {
        CurrentContractCandidateKind::Sqlite => {
            if str_eq(scenario_id, "derived-state-corruption-and-rebuild") {
                let arguments = vec![String::from_str("not-a-derived-projection")];
                let r = TamperPlan {
                    action: TamperAction::DerivedCache,
                    arguments,
                    label: String::from_str("tamper_derived_cache_for_test"),
                };
                proof {
                    assert(r@.arguments =~= seq!["not-a-derived-projection"@]);
                }
                Ok(r)
            } else if str_eq(scenario_id, "canonical-reference-corruption") {
                Ok(hook_plan(TamperAction::CanonicalProvenance, "tamper_canonical_provenance_for_test:", scenario_id))
            } else if str_eq(scenario_id, "source-locator-corruption") {
                Ok(hook_plan(TamperAction::SourceLocator, "tamper_source_locator_for_test:", scenario_id))
            } else if str_eq(scenario_id, "review-ledger-order-corruption") {
                Ok(hook_plan(TamperAction::ReviewLedgerOrder, "tamper_review_ledger_order_for_test:", scenario_id))
            } else if str_eq(scenario_id, "reuse-governance-order-corruption") {
                Ok(
                    hook_plan(
                        TamperAction::ReuseGovernanceOrder,
                        "tamper_reuse_governance_order_for_test:",
                        scenario_id,
                    ),
                )
            } else {
                Err(concat2("unsupported tamper for ", scenario_id))
            }
        },
        CurrentContractCandidateKind::Append => {
            let replacement = if str_eq(scenario_id, "canonical-reference-corruption") {
                Some("writer:canonical-tampered")
            } else if str_eq(scenario_id, "source-locator-corruption") {
                Some("writer:locator-tampered")
            } else if str_eq(scenario_id, "review-ledger-order-corruption") {
                Some("writer:ledger-order-tampered")
            } else if str_eq(scenario_id, "reuse-governance-order-corruption") {
                Some("writer:governance-order-tampered")
            } else {
                None
            };
            match replacement {
                Some(token) => {
                    let arguments = vec![String::from_str("writer:promoted"), String::from_str(token)];
                    let r = TamperPlan {
                        action: TamperAction::CommittedStateToken,
                        arguments,
                        label: concat2("tamper_committed_state_for_test:", scenario_id),
                    };
                    proof {
                        assert(r@.arguments =~= seq!["writer:promoted"@, token@]);
                    }
                    Ok(r)
                },
                None => Err(concat2("unsupported tamper for ", scenario_id)),
            }
        },
    }
}

/// The word a candidate kind is labelled with.
pub open spec fn kind_label_spec(kind: CurrentContractCandidateKind) -> Seq<char> {
    match kind {
        CurrentContractCandidateKind::Append => "append"@,
        CurrentContractCandidateKind::Sqlite => "sqlite"@,
    }
}

/// The word a candidate kind is labelled with.
pub fn kind_label(kind: CurrentContractCandidateKind) -> (r: &'static str)
    ensures
        r@ == kind_label_spec(kind),
{
    match kind {
        CurrentContractCandidateKind::Append => "append",
        CurrentContractCandidateKind::Sqlite => "sqlite",
    }
}

/// The limitation recorded for the damage done under `plan`.
pub fn tamper_limitation(kind: CurrentContractCandidateKind, scenario_id: &str, plan: &TamperPlan) -> (r: String)
    ensures
        r@ == corruption_tamper_limitation_spec(kind_label_spec(kind), scenario_id@, plan@.label),
{
    corruption_tamper_limitation(kind_label(kind), scenario_id, plan.label.as_str())
}

/// The state a duplicate of `source` under `duplicate_id` should reopen as:
/// the new id, the source as its origin, an independent writer token, and
/// canonical order.
pub open spec fn expected_duplicated_spec(source: CurrentContractStateView, duplicate_id: Seq<char>) -> CurrentContractStateView {
    normalize_view(
        CurrentContractStateView {
            duplicated_from_session_id: Some(source.session_id),
            session_id: duplicate_id,
            durable_command_tokens: EvidenceDurableCommandTokensView {
                evidence_writer_token: duplicate_writer_token_spec(duplicate_id),
                ..source.durable_command_tokens
            },
            ..source
        },
    )
}

/// The state a duplicate of `source` under `duplicate_id` should reopen as.
pub fn expected_duplicated_state(source: &CurrentContractState, duplicate_id: &str) -> (r: CurrentContractState)
    ensures
        r@ == expected_duplicated_spec(source@, duplicate_id@),
{
    let mut expected = source.clone();
    expected.duplicated_from_session_id = Some(source.session_id.clone());
    expected.session_id = String::from_str(duplicate_id);
    expected.durable_command_tokens.evidence_writer_token = derive_duplicate_evidence_writer_token(duplicate_id);
    proof {
        assert(expected@ =~= CurrentContractStateView {
            duplicated_from_session_id: Some(source@.session_id),
            session_id: duplicate_id@,
            durable_command_tokens: EvidenceDurableCommandTokensView {
                evidence_writer_token: duplicate_writer_token_spec(duplicate_id@),
                ..source@.durable_command_tokens
            },
            ..source@
        });
    }
    expected.normalize()
}

} // verus!
