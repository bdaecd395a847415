use vstd::prelude::*;
use crate::evidence_01c::methodology::MethodologyRecord;
use crate::evidence_01c::readiness::{
    aggregate_is_valid, aggregate_valid_spec, first_aggregate_index, first_result_index, texts_upto, ReadinessAssessment,
};
use crate::evidence_01c::types::{
    fixture_scale_label, fixture_scale_label_spec, CandidateEligibilityRecord, CandidateRunArtifacts,
    CandidateRunArtifactsView, ComparativeEvidencePackage, EnvironmentRecord, InvalidPredecessorEvidence,
    MeasurementAggregate, MeasurementAggregateView, MediumFixtureRecord, NormalizedScenarioResult,
    PlatformComparisonSection, PlatformComparisonSectionView,
};
use crate::measurement::{
    comparative_measurement_contract, measured_operations_spec, MeasurementFixtureScale, MeasurementOperationSpec,
    MeasurementOperationSpecView,
};
use crate::model::{opt_view, vec_duplicate, vec_view, SameAs};
use crate::text::{concat2, concat3, decimal_spec, decimal_wide, join, join_spec, str_eq};

verus! {

/// The position of the first operation of the measurement contract with the given name.
pub open spec fn first_operation_index(ops: Seq<MeasurementOperationSpecView>, name: Seq<char>) -> Option<nat>
    decreases ops.len(),
{
    if ops.len() == 0 {
        None
    } else if ops[0].operation == name {
        Some(0)
    } else {
        match first_operation_index(ops.drop_first(), name) {
            Some(i) => Some(i + 1),
            None => None,
        }
    }
}

/// The sample count the measurement contract expects of an operation; zero
/// for an operation it does not list.
pub open spec fn expected_count_spec(name: Seq<char>) -> u32 {
    match first_operation_index(measured_operations_spec(), name) {
        Some(k) => measured_operations_spec()[k as int].sample_count,
        None => 0,
    }
}

fn expected_count(ops: &Vec<MeasurementOperationSpec>, name: &String) -> (r: u32)
    requires
        vec_view(ops@) == measured_operations_spec(),
    ensures
        r == expected_count_spec(name@),
{
    let ghost ov = vec_view(ops@);
    let mut k: usize = 0;
    proof {
        assert(ov.skip(0) =~= ov);
    }
    while k < ops.len()
        invariant
            k <= ops.len(),
            ov == vec_view(ops@),
            ov == measured_operations_spec(),
            first_operation_index(ov, name@) == match first_operation_index(ov.skip(k as int), name@) {
                Some(i) => Some((i + k) as nat),
                None => None::<nat>,
            },
        decreases ops.len() - k,
    {
        proof {
            assert(ov.skip(k as int)[0] == ov[k as int]);
            assert(ov.skip(k as int).drop_first() =~= ov.skip(k + 1));
            assert(ov[k as int] == ops@[k as int]@);
        }
        if ops[k].operation.same_as(name) {
            return ops[k].sample_count;
        }
        k = k + 1;
    }
    proof {
        assert(ov.skip(k as int).len() == 0);
    }
    0
}

/// The latency tradeoff between two aggregates of the same operation, if
/// both have a median latency and they differ.
pub open spec fn latency_tradeoff(a: MeasurementAggregateView, s: MeasurementAggregateView) -> Seq<Seq<char>> {
    match (a.median_ms, s.median_ms) {
        (Some(am), Some(sm)) => if am < sm {
            seq![
                a.operation + " "@ + fixture_scale_label_spec(a.fixture_scale) + ": append lower median latency ("@
                    + decimal_spec(am as nat) + " ms vs "@ + decimal_spec(sm as nat) + " ms)"@,
            ]
        } else if sm < am {
            seq![
                a.operation + " "@ + fixture_scale_label_spec(s.fixture_scale) + ": sqlite lower median latency ("@
                    + decimal_spec(sm as nat) + " ms vs "@ + decimal_spec(am as nat) + " ms)"@,
            ]
        } else {
            Seq::empty()
        },
        _ => Seq::empty(),
    }
}

/// The peak-memory tradeoff between two aggregates of the same operation, if any.
pub open spec fn memory_tradeoff(a: MeasurementAggregateView, s: MeasurementAggregateView) -> Seq<Seq<char>> {
    match (a.peak_memory_bytes.value, s.peak_memory_bytes.value) {
        (Some(ap), Some(sp)) => if ap < sp {
            seq![
                a.operation + " "@ + fixture_scale_label_spec(a.fixture_scale)
                    + ": append lower subprocess peak RSS ("@ + decimal_spec(ap as nat) + " vs "@ + decimal_spec(
                    sp as nat,
                ) + " bytes)"@,
            ]
        } else if sp < ap {
            seq![
                s.operation + " "@ + fixture_scale_label_spec(s.fixture_scale)
                    + ": sqlite lower subprocess peak RSS ("@ + decimal_spec(sp as nat) + " vs "@ + decimal_spec(
                    ap as nat,
                ) + " bytes)"@,
            ]
        } else {
            Seq::empty()
        },
        _ => Seq::empty(),
    }
}

/// The tradeoffs one append aggregate shows against the SQLite aggregate of
/// the same operation and scale, when both are complete evidence.
pub open spec fn tradeoffs_for(sqlite: CandidateRunArtifactsView, a: MeasurementAggregateView) -> Seq<Seq<char>> {
    match first_aggregate_index(sqlite.measurements, a.operation, a.fixture_scale) {
        None => Seq::empty(),
        Some(k) => {
            let s = sqlite.measurements[k as int];
            let expected = expected_count_spec(a.operation);
            if !aggregate_valid_spec(a, expected) || !aggregate_valid_spec(s, expected) {
                Seq::empty()
            } else {
                latency_tradeoff(a, s) + memory_tradeoff(a, s)
            }
        },
    }
}

/// Per-aggregate tradeoffs.
pub open spec fn tradeoffs_fn(append: CandidateRunArtifactsView, sqlite: CandidateRunArtifactsView) -> spec_fn(int) -> Seq<
    Seq<char>,
> {
    |i: int| tradeoffs_for(sqlite, append.measurements[i])
}

/// The writer takeover observation of one candidate, if it ran that scenario.
pub open spec fn takeover_observation(label: Seq<char>, a: CandidateRunArtifactsView) -> Seq<Seq<char>> {
    match first_result_index(a.scenario_results, "writer-crash-and-takeover"@) {
        Some(k) => {
            let r = a.scenario_results[k as int];
            seq![
                "writer-crash-and-takeover "@ + label + ": elapsed_ms="@ + decimal_spec(r.elapsed_ms as nat)
                    + " recovery_class="@ + r.recovery_class + " open_state="@ + r.open_state,
            ]
        },
        None => Seq::empty(),
    }
}

/// The recovery observations of the two candidates, with the takeover latency
/// asymmetry where both ran the takeover scenario.
pub open spec fn recovery_observations_spec(
    platform: Seq<char>,
    append: CandidateRunArtifactsView,
    sqlite: CandidateRunArtifactsView,
    lease_ms: u64,
    wait_ms: u64,
) -> Seq<Seq<char>> {
    let id = "writer-crash-and-takeover"@;
    takeover_observation("append"@, append) + takeover_observation("sqlite"@, sqlite) + match (
        first_result_index(append.scenario_results, id),
        first_result_index(sqlite.scenario_results, id),
    ) {
        (Some(ak), Some(sk)) => seq![
            "takeover latency asymmetry on "@ + platform + ": append "@ + decimal_spec(
                append.scenario_results[ak as int].elapsed_ms as nat,
            ) + " ms vs sqlite "@ + decimal_spec(sqlite.scenario_results[sk as int].elapsed_ms as nat)
                + " ms (sqlite harness uses "@ + decimal_spec(lease_ms as nat) + " ms test lease + "@ + decimal_spec(
                wait_ms as nat,
            ) + " ms wait)"@,
        ],
        _ => Seq::empty(),
    }
}

/// The caveats every comparison carries about its measurements.
pub open spec fn measurement_caveats_spec() -> Seq<Seq<char>> {
    seq![
        "peak_memory_bytes is subprocess peak RSS after fixture setup, not operation-isolated attribution"@,
        "storage_size_before is unavailable for isolated per-sample measurement roots"@,
    ]
}

/// The within-platform comparison of the two candidates' runs.
pub open spec fn comparison_spec(
    platform: Seq<char>,
    append: CandidateRunArtifactsView,
    sqlite: CandidateRunArtifactsView,
    lease_ms: u64,
    wait_ms: u64,
) -> PlatformComparisonSectionView {
    PlatformComparisonSectionView {
        platform,
        tradeoffs: texts_upto(append.measurements.len() as int, tradeoffs_fn(append, sqlite)),
        recovery_observations: recovery_observations_spec(platform, append, sqlite, lease_ms, wait_ms),
        measurement_caveats: measurement_caveats_spec(),
        append_disqualified: append.disqualifications.len() > 0,
        sqlite_disqualified: sqlite.disqualifications.len() > 0,
    }
}

fn push_line(out: &mut Vec<String>, t: String)
    ensures
        vec_view(final(out)@) == vec_view(old(out)@).push(t@),
{
    out.push(t);
    proof {
        assert(vec_view(final(out)@) =~= vec_view(old(out)@).push(t@));
    }
}

fn aggregate_tradeoffs(
    a: &MeasurementAggregate,
    s: &MeasurementAggregate,
    out: &mut Vec<String>,
)
    ensures
        vec_view(final(out)@) == vec_view(old(out)@) + latency_tradeoff(a@, s@) + memory_tradeoff(a@, s@),
{
    let ghost start = vec_view(out@);
    match (a.median_ms, s.median_ms) {
        (Some(a_median), Some(s_median)) => {
            if a_median < s_median {
                let label = fixture_scale_label(a.fixture_scale);
                let am = decimal_wide(a_median);
                let sm = decimal_wide(s_median);
                let p1 = concat3(a.operation.as_str(), " ", label.as_str());
                let p2 = concat3(p1.as_str(), ": append lower median latency (", am.as_str());
                let p3 = concat3(p2.as_str(), " ms vs ", sm.as_str());
                push_line(out, concat2(p3.as_str(), " ms)"));
            } else if s_median < a_median {
                let label = fixture_scale_label(s.fixture_scale);
                let am = decimal_wide(a_median);
                let sm = decimal_wide(s_median);
                let p1 = concat3(a.operation.as_str(), " ", label.as_str());
                let p2 = concat3(p1.as_str(), ": sqlite lower median latency (", sm.as_str());
                let p3 = concat3(p2.as_str(), " ms vs ", am.as_str());
                push_line(out, concat2(p3.as_str(), " ms)"));
            }
        },
        _ => {},
    }
    let ghost mid = vec_view(out@);
    match (a.peak_memory_bytes.value, s.peak_memory_bytes.value) {
        (Some(ap), Some(sp)) => {
            if ap < sp {
                let label = fixture_scale_label(a.fixture_scale);
                let at = decimal_wide(ap as u128);
                let st = decimal_wide(sp as u128);
                let p1 = concat3(a.operation.as_str(), " ", label.as_str());
                let p2 = concat3(p1.as_str(), ": append lower subprocess peak RSS (", at.as_str());
                let p3 = concat3(p2.as_str(), " vs ", st.as_str());
                push_line(out, concat2(p3.as_str(), " bytes)"));
            } else if sp < ap {
                let label = fixture_scale_label(s.fixture_scale);
                let at = decimal_wide(ap as u128);
                let st = decimal_wide(sp as u128);
                let p1 = concat3(s.operation.as_str(), " ", label.as_str());
                let p2 = concat3(p1.as_str(), ": sqlite lower subprocess peak RSS (", st.as_str());
                let p3 = concat3(p2.as_str(), " vs ", at.as_str());
                push_line(out, concat2(p3.as_str(), " bytes)"));
            }
        },
        _ => {},
    }
    proof {
        assert(mid =~= start + latency_tradeoff(a@, s@));
        assert(vec_view(out@) =~= start + latency_tradeoff(a@, s@) + memory_tradeoff(a@, s@));
    }
}

fn sqlite_aggregate_position(rows: &Vec<MeasurementAggregate>, a: &MeasurementAggregate) -> (r: Option<usize>)
    ensures
        match r {
            Some(k) => k < rows@.len() && first_aggregate_index(vec_view(rows@), a@.operation, a@.fixture_scale) == Some(
                k as nat,
            ),
            None => first_aggregate_index(vec_view(rows@), a@.operation, a@.fixture_scale) is None,
        },
{
    let ghost rv = vec_view(rows@);
    let mut k: usize = 0;
    proof {
        assert(rv.skip(0) =~= rv);
    }
    while k < rows.len()
        invariant
            k <= rows.len(),
            rv == vec_view(rows@),
            first_aggregate_index(rv, a@.operation, a@.fixture_scale) == match first_aggregate_index(
                rv.skip(k as int),
                a@.operation,
                a@.fixture_scale,
            ) {
                Some(i) => Some((i + k) as nat),
                None => None::<nat>,
            },
        decreases rows.len() - k,
    {
        proof {
            assert(rv.skip(k as int)[0] == rv[k as int]);
            assert(rv.skip(k as int).drop_first() =~= rv.skip(k + 1));
        }
        if rows[k].operation.same_as(&a.operation) && rows[k].fixture_scale == a.fixture_scale {
            return Some(k);
        }
        k = k + 1;
    }
    proof {
        assert(rv.skip(k as int).len() == 0);
    }
    None
}

fn takeover_position(rows: &Vec<NormalizedScenarioResult>) -> (r: Option<usize>)
    ensures
        match r {
            Some(k) => k < rows@.len() && first_result_index(vec_view(rows@), "writer-crash-and-takeover"@) == Some(
                k as nat,
            ),
            None => first_result_index(vec_view(rows@), "writer-crash-and-takeover"@) is None,
        },
{
    let ghost rv = vec_view(rows@);
    let ghost id = "writer-crash-and-takeover"@;
    let mut k: usize = 0;
    proof {
        assert(rv.skip(0) =~= rv);
    }
    while k < rows.len()
        invariant
            k <= rows.len(),
            rv == vec_view(rows@),
            id == "writer-crash-and-takeover"@,
            first_result_index(rv, id) == match first_result_index(rv.skip(k as int), id) {
                Some(i) => Some((i + k) as nat),
                None => None::<nat>,
            },
        decreases rows.len() - k,
    {
        proof {
            assert(rv.skip(k as int)[0] == rv[k as int]);
            assert(rv.skip(k as int).drop_first() =~= rv.skip(k + 1));
        }
        if str_eq(rows[k].scenario_id.as_str(), "writer-crash-and-takeover") {
            return Some(k);
        }
        k = k + 1;
    }
    proof {
        assert(rv.skip(k as int).len() == 0);
    }
    None
}

fn takeover_line(label: &str, row: &NormalizedScenarioResult) -> (r: String)
    ensures
        r@ == "writer-crash-and-takeover "@ + label@ + ": elapsed_ms="@ + decimal_spec(row@.elapsed_ms as nat)
            + " recovery_class="@ + row@.recovery_class + " open_state="@ + row@.open_state,
{
    let elapsed = decimal_wide(row.elapsed_ms);
    let p1 = concat3("writer-crash-and-takeover ", label, ": elapsed_ms=");
    let p2 = concat3(p1.as_str(), elapsed.as_str(), " recovery_class=");
    let p3 = concat3(p2.as_str(), row.recovery_class.as_str(), " open_state=");
    concat2(p3.as_str(), row.open_state.as_str())
}

/// Compares the two candidates' complete measurements on one platform, and
/// records their writer-takeover observations; `lease_ms` and `wait_ms` are
/// the test lease and expiry wait the SQLite harness used.
pub fn build_comparison_report(
    platform: &str,
    append: &CandidateRunArtifacts,
    sqlite: &CandidateRunArtifacts,
    lease_ms: u64,
    wait_ms: u64,
) -> (r: PlatformComparisonSection)
    ensures
        r@ == comparison_spec(platform@, append@, sqlite@, lease_ms, wait_ms),
{
    let contract = comparative_measurement_contract();
    let mut tradeoffs: Vec<String> = Vec::new();
    let mut i: usize = 0;
    proof {
        assert(vec_view(tradeoffs@) =~= Seq::<Seq<char>>::empty());
    }
    while i < append.measurements.len()
        invariant
            i <= append.measurements.len(),
            vec_view(contract.operations@) == measured_operations_spec(),
            vec_view(tradeoffs@) == texts_upto(i as int, tradeoffs_fn(append@, sqlite@)),
        decreases append.measurements.len() - i,
    {
        let a = &append.measurements[i];
        proof {
            assert(append@.measurements[i as int] == a@);
        }
        let ghost before = vec_view(tradeoffs@);
        match sqlite_aggregate_position(&sqlite.measurements, a) {
            None => {},
            Some(k) => {
                let s = &sqlite.measurements[k];
                proof {
                    assert(sqlite@.measurements[k as int] == s@);
                }
                let expected = expected_count(&contract.operations, &a.operation);
                if aggregate_is_valid(a, expected) && aggregate_is_valid(s, expected) {
                    aggregate_tradeoffs(a, s, &mut tradeoffs);
                }
            },
        }
        i = i + 1;
        proof {
            assert(vec_view(tradeoffs@) =~= texts_upto(i as int, tradeoffs_fn(append@, sqlite@)));
        }
    }
    let mut recovery: Vec<String> = Vec::new();
    let append_takeover = takeover_position(&append.scenario_results);
    let sqlite_takeover = takeover_position(&sqlite.scenario_results);
    match append_takeover {
        Some(k) => {
            proof {
                assert(append@.scenario_results[k as int] == append.scenario_results@[k as int]@);
            }
            push_line(&mut recovery, takeover_line("append", &append.scenario_results[k]));
        },
        None => {},
    }
    match sqlite_takeover {
        Some(k) => {
            proof {
                assert(sqlite@.scenario_results[k as int] == sqlite.scenario_results@[k as int]@);
            }
            push_line(&mut recovery, takeover_line("sqlite", &sqlite.scenario_results[k]));
        },
        None => {},
    }
    match (append_takeover, sqlite_takeover) {
        (Some(ak), Some(sk)) => {
            proof {
                assert(append@.scenario_results[ak as int] == append.scenario_results@[ak as int]@);
                assert(sqlite@.scenario_results[sk as int] == sqlite.scenario_results@[sk as int]@);
            }
            let ae = decimal_wide(append.scenario_results[ak].elapsed_ms);
            let se = decimal_wide(sqlite.scenario_results[sk].elapsed_ms);
            let le = decimal_wide(lease_ms as u128);
            let we = decimal_wide(wait_ms as u128);
            let p1 = concat3("takeover latency asymmetry on ", platform, ": append ");
            let p2 = concat3(p1.as_str(), ae.as_str(), " ms vs sqlite ");
            let p3 = concat3(p2.as_str(), se.as_str(), " ms (sqlite harness uses ");
            let p4 = concat3(p3.as_str(), le.as_str(), " ms test lease + ");
            push_line(&mut recovery, concat3(p4.as_str(), we.as_str(), " ms wait)"));
        },
        _ => {},
    }
    proof {
        assert(vec_view(recovery@) =~= recovery_observations_spec(platform@, append@, sqlite@, lease_ms, wait_ms));
    }
    let mut caveats: Vec<String> = Vec::new();
    caveats.push(
        String::from_str(
            "peak_memory_bytes is subprocess peak RSS after fixture setup, not operation-isolated attribution",
        ),
    );
    caveats.push(String::from_str("storage_size_before is unavailable for isolated per-sample measurement roots"));
    proof {
        assert(vec_view(caveats@) =~= measurement_caveats_spec());
    }
    PlatformComparisonSection {
        platform: String::from_str(platform),
        tradeoffs,
        recovery_observations: recovery,
        measurement_caveats: caveats,
        append_disqualified: append.disqualifications.len() > 0,
        sqlite_disqualified: sqlite.disqualifications.len() > 0,
    }
}

/// Each text as a list item.
pub open spec fn bullets(v: Seq<Seq<char>>) -> Seq<Seq<char>> {
    v.map_values(|t: Seq<char>| "- "@ + t)
}

/// The lines of the markdown rendering of a comparison.
pub open spec fn markdown_lines(s: PlatformComparisonSectionView) -> Seq<Seq<char>> {
    seq!["# 01C comparison ("@ + s.platform + ")"@] + (if s.tradeoffs.len() == 0 {
        seq!["No material within-platform latency/memory tradeoffs observed."@]
    } else {
        bullets(s.tradeoffs)
    }) + (if s.recovery_observations.len() > 0 {
        seq![Seq::empty(), "## Recovery observations"@] + bullets(s.recovery_observations)
    } else {
        Seq::empty()
    }) + (if s.measurement_caveats.len() > 0 {
        seq![Seq::empty(), "## Measurement caveats"@] + bullets(s.measurement_caveats)
    } else {
        Seq::empty()
    })
}

fn push_bullets(lines: &mut Vec<String>, items: &Vec<String>)
    ensures
        vec_view(final(lines)@) == vec_view(old(lines)@) + bullets(vec_view(items@)),
{
    let ghost start = vec_view(lines@);
    let ghost iv = vec_view(items@);
    let mut i: usize = 0;
    while i < items.len()
        invariant
            i <= items.len(),
            iv == vec_view(items@),
            vec_view(lines@) == start + bullets(iv.take(i as int)),
        decreases items.len() - i,
    {
        push_line(lines, concat2("- ", items[i].as_str()));
        proof {
            assert(bullets(iv.take(i + 1)) =~= bullets(iv.take(i as int)).push("- "@ + iv[i as int]));
        }
        i = i + 1;
    }
    proof {
        assert(iv.take(i as int) =~= iv);
    }
}

/// The markdown rendering of a comparison.
pub fn comparison_markdown(section: &PlatformComparisonSection) -> (r: String)
    ensures
        r@ == join_spec(markdown_lines(section@), seq!['\n']),
{
    let mut lines: Vec<String> = Vec::new();
    push_line(&mut lines, concat3("# 01C comparison (", section.platform.as_str(), ")"));
    if section.tradeoffs.len() == 0 {
        push_line(&mut lines, String::from_str("No material within-platform latency/memory tradeoffs observed."));
    } else {
        push_bullets(&mut lines, &section.tradeoffs);
    }
    if section.recovery_observations.len() > 0 {
        push_line(&mut lines, String::new());
        push_line(&mut lines, String::from_str("## Recovery observations"));
        push_bullets(&mut lines, &section.recovery_observations);
    }
    if section.measurement_caveats.len() > 0 {
        push_line(&mut lines, String::new());
        push_line(&mut lines, String::from_str("## Measurement caveats"));
        push_bullets(&mut lines, &section.measurement_caveats);
    }
    proof {
        assert(vec_view(lines@) =~= markdown_lines(section@));
        reveal_strlit("\n");
        assert("\n"@ =~= seq!['\n']);
    }
    join(&lines, "\n")
}

/// Assembles the evidence package from a run's parts; the last entry of the
/// chain of invalid earlier evidence, if any, is the immediate predecessor.
pub fn package_from_runs(
    work_package_id: &str,
    harness_semantic_sha: &str,
    environment: EnvironmentRecord,
    methodology: MethodologyRecord,
    medium_fixture: MediumFixtureRecord,
    eligibility: Vec<CandidateEligibilityRecord>,
    append: CandidateRunArtifacts,
    sqlite: CandidateRunArtifacts,
    comparison: PlatformComparisonSection,
    readiness: &ReadinessAssessment,
    invalid_evidence_chain: Vec<InvalidPredecessorEvidence>,
) -> (r: ComparativeEvidencePackage)
    ensures
        r@.work_package_id == work_package_id@,
        r@.harness_semantic_sha == harness_semantic_sha@,
        r@.environment == environment@,
        r@.methodology == methodology@,
        r@.medium_fixture == medium_fixture@,
        r@.eligibility == vec_view(eligibility@),
        r@.append == append@,
        r@.sqlite == sqlite@,
        r@.comparison == comparison@,
        r@.limitations == readiness@.limitations,
        r@.mechanism_comparison_readiness == readiness@.mechanism_comparison_readiness,
        r@.mechanism_selection_readiness == readiness@.mechanism_selection_readiness,
        r@.predecessor_invalid_evidence == (if invalid_evidence_chain@.len() > 0 {
            Some(vec_view(invalid_evidence_chain@).last())
        } else {
            None
        }),
        r@.invalid_evidence_chain == vec_view(invalid_evidence_chain@),
{
    let predecessor = if invalid_evidence_chain.len() > 0 {
        let last = invalid_evidence_chain.len() - 1;
        Some(invalid_evidence_chain[last].clone())
    } else {
        None
    };
    ComparativeEvidencePackage {
        work_package_id: String::from_str(work_package_id),
        harness_semantic_sha: String::from_str(harness_semantic_sha),
        environment,
        methodology,
        medium_fixture,
        eligibility,
        append,
        sqlite,
        comparison,
        limitations: vec_duplicate(&readiness.limitations),
        mechanism_comparison_readiness: readiness.mechanism_comparison_readiness.clone(),
        mechanism_selection_readiness: readiness.mechanism_selection_readiness.clone(),
        predecessor_invalid_evidence: predecessor,
        invalid_evidence_chain,
    }
}


/// `<operation> <scale>: <who> lower median latency (<lower> ms vs <higher> ms)`.
pub open spec fn median_latency_line(
    operation: Seq<char>,
    scale: MeasurementFixtureScale,
    who: Seq<char>,
    lower: u128,
    higher: u128,
) -> Seq<char> {
    operation + " "@ + fixture_scale_label_spec(scale) + ": "@ + who + " lower median latency ("@ + decimal_spec(
        lower as nat,
    ) + " ms vs "@ + decimal_spec(higher as nat) + " ms)"@
}

/// For two aggregates of the same operation and scale, the latency tradeoff
/// names the candidate with the strictly lower median and gives its median
/// first: the line says append only when append's median is below SQLite's,
/// SQLite only when SQLite's is below append's; there is exactly one line when
/// both medians are known and differ, and none otherwise.
pub proof fn law_latency_tradeoff_names_the_faster_candidate(a: MeasurementAggregateView, s: MeasurementAggregateView)
    requires
        a.operation == s.operation,
        a.fixture_scale == s.fixture_scale,
    ensures
        latency_tradeoff(a, s).len() <= 1,
        latency_tradeoff(a, s).len() == 1 <==> (a.median_ms is Some && s.median_ms is Some && a.median_ms
            != s.median_ms),
        latency_tradeoff(a, s).len() == 1 ==> {
            let am = a.median_ms->Some_0;
            let sm = s.median_ms->Some_0;
            ||| (am < sm && latency_tradeoff(a, s)[0] == median_latency_line(
                a.operation,
                a.fixture_scale,
                "append"@,
                am,
                sm,
            ))
            ||| (sm < am && latency_tradeoff(a, s)[0] == median_latency_line(
                a.operation,
                a.fixture_scale,
                "sqlite"@,
                sm,
                am,
            ))
        },
        "append"@ != "sqlite"@,
{
    reveal_strlit("append");
    reveal_strlit("sqlite");
    reveal_strlit(": ");
    reveal_strlit(" lower median latency (");
    reveal_strlit(": append lower median latency (");
    reveal_strlit(": sqlite lower median latency (");
    assert("append"@[0] != "sqlite"@[0]);
    let head = a.operation + " "@ + fixture_scale_label_spec(a.fixture_scale);
    assert(head + ": "@ + "append"@ + " lower median latency ("@ =~= head + ": append lower median latency ("@);
    assert(head + ": "@ + "sqlite"@ + " lower median latency ("@ =~= head + ": sqlite lower median latency ("@);
}

} // verus!
