use voxproof_evidence::append_authority::AppendAuthoritativeCandidateAdapter;
use voxproof_evidence::evidence_01c::candidate::{CurrentContractCandidate, CurrentContractCandidateKind};
use voxproof_evidence::evidence_01c::runner::{
    platform_append_requested, platform_directory, AppendEvidenceVariant, SqliteEvidenceVariant,
};
use voxproof_evidence::evidence_01c::measurement_ops::observed_sample;
use voxproof_evidence::evidence_01c::measurements::{aggregate_blocks, measurement_blocks, sample_order, MeasurementBlock};
use voxproof_evidence::evidence_01c::scenario_observation::ScenarioOutcome;
use voxproof_evidence::measurement::{comparative_measurement_contract, MeasurementFixtureScale};
use voxproof_evidence::evidence_01c::scenarios::{
    capability_gate, expect_writer_refusal, expected_corruption_refusal_code, expected_duplicated_state,
    observation_to_result, run_capability_interrupt, run_required_scenarios, scenario_route,
    stale_precondition_outcome, tamper_limitation, tamper_plan, unknown_format_outcome, ScenarioRoute, TamperAction,
};
use voxproof_evidence::evidence_01c::types::ScenarioExecutionStatus;
use voxproof_evidence::scenario_contract::scenario_contract_v4;
use voxproof_evidence::sqlite_authority::SqliteAuthoritativeCandidateAdapter;

fn append_candidate() -> CurrentContractCandidate {
    CurrentContractCandidate::Append {
        adapter: AppendAuthoritativeCandidateAdapter::from_parts("/tmp/append".to_owned(), "append-adapter".to_owned()),
        storage_root: "/tmp/append".to_owned(),
    }
}

fn sqlite_candidate() -> CurrentContractCandidate {
    CurrentContractCandidate::Sqlite {
        adapter: SqliteAuthoritativeCandidateAdapter::from_parts("/tmp/sqlite".to_owned(), "sqlite-adapter".to_owned()),
        storage_root: "/tmp/sqlite".to_owned(),
    }
}

#[test]
fn scenarios_route_to_their_procedures() {
    assert_eq!(scenario_route("baseline-create-open-close"), ScenarioRoute::Baseline);
    assert_eq!(scenario_route("semantic-duplication"), ScenarioRoute::Duplication);
    assert_eq!(scenario_route("derived-state-corruption-and-rebuild"), ScenarioRoute::DerivedRebuild);
    assert_eq!(scenario_route("malformed-format-version"), ScenarioRoute::MalformedFormat);
    assert_eq!(scenario_route("unknown-newer-format"), ScenarioRoute::UnknownFormat);
    assert_eq!(scenario_route("append-review-decision"), ScenarioRoute::FixtureRoundTrip);
    assert_eq!(scenario_route("stale-review-ledger-command"), ScenarioRoute::StalePrecondition);
    assert_eq!(scenario_route("canonical-reference-corruption"), ScenarioRoute::NegativeCorruption);
    assert_eq!(scenario_route("some-malformed-thing"), ScenarioRoute::NegativeCorruption);
    assert_eq!(scenario_route("interrupted-authoritative-reuse-transition"), ScenarioRoute::InterruptedReuseTransition);
    assert_eq!(scenario_route("writer-crash-and-takeover"), ScenarioRoute::WriterTakeover);
    assert_eq!(scenario_route("interrupted-cleanup"), ScenarioRoute::InterruptedCleanup);
    assert_eq!(scenario_route("unrelated-scope-review-after-reuse-advance"), ScenarioRoute::FixtureRoundTrip);
}

#[test]
fn undeclared_capabilities_make_scenarios_unsupported() {
    let candidate = append_candidate();
    let catalog = scenario_contract_v4();
    let compaction = catalog.iter().find(|s| s.scenario_id == "interrupted-compaction").expect("compaction");
    let gated = capability_gate(compaction, &candidate, true).expect("gated");
    assert_eq!(gated.status, ScenarioExecutionStatus::Unsupported);
    assert_eq!(gated.limitations, vec!["capability compaction_supported not declared".to_owned()]);
    let takeover = catalog.iter().find(|s| s.scenario_id == "writer-crash-and-takeover").expect("takeover");
    assert!(capability_gate(takeover, &candidate, true).is_none());
    assert!(capability_gate(takeover, &candidate, false).is_some());
    let baseline = catalog.iter().find(|s| s.scenario_id == "baseline-create-open-close").expect("baseline");
    assert!(capability_gate(baseline, &candidate, false).is_none());
    let mut unknown = scenario_contract_v4().into_iter().next().expect("first scenario");
    unknown.capability_requirement = Some("teleportation".to_owned());
    let failed = capability_gate(&unknown, &candidate, true).expect("failed");
    assert_eq!(failed.status, ScenarioExecutionStatus::Failed);
    assert_eq!(failed.failure_code.as_deref(), Some("unknown capability requirement teleportation"));
}

#[test]
fn outcomes_become_results_and_failures_disqualify() {
    let candidate = sqlite_candidate();
    let catalog = scenario_contract_v4();
    let passed = observation_to_result(&candidate, &catalog[0], "linux", 12, ScenarioOutcome::passed_with_oracle());
    assert_eq!(passed.scenario_id, catalog[0].scenario_id);
    assert_eq!(passed.candidate_id, "current-contract-sqlite-authoritative-candidate");
    assert_eq!(passed.fixture_scale, "small");
    assert_eq!(passed.elapsed_ms, 12);
    assert!(passed.oracle_compare);
    let failed = observation_to_result(&candidate, &catalog[1], "linux", 3, ScenarioOutcome::failed("boom"));
    let (results, disqualifications) = run_required_scenarios(&candidate, vec![passed, failed]);
    assert_eq!(results.len(), 2);
    assert_eq!(disqualifications.len(), 1);
    assert_eq!(disqualifications[0].gate, "scenario_failure");
    assert_eq!(disqualifications[0].scenario_id.as_deref(), Some(catalog[1].scenario_id.as_str()));
    assert_eq!(disqualifications[0].detail, "boom");
    assert_eq!(disqualifications[0].candidate_id, "current-contract-sqlite-authoritative-candidate");
}

#[test]
fn undeclared_interrupts_are_unsupported() {
    let outcome = run_capability_interrupt(&append_candidate(), "cleanup").expect("unsupported");
    assert_eq!(outcome.status, ScenarioExecutionStatus::Unsupported);
    assert_eq!(outcome.limitations, vec!["capability cleanup not declared".to_owned()]);
}

#[test]
fn second_writers_must_be_refused_as_already_open() {
    assert!(expect_writer_refusal(Some("writer-already-open"), "concurrent-writer-not-rejected").is_ok());
    assert_eq!(expect_writer_refusal(None, "concurrent-writer-not-rejected"), Err("concurrent-writer-not-rejected".to_owned()));
    assert_eq!(expect_writer_refusal(Some("io"), "x"), Err("io".to_owned()));
    let newer = unknown_format_outcome(Some("unsupported-newer-format")).expect("passed");
    assert_eq!(newer.open_state, "unsupported_version");
    assert_eq!(newer.failure_code.as_deref(), Some("unsupported-newer-format"));
    assert_eq!(unknown_format_outcome(None).err(), Some("unknown_newer_format_writable".to_owned()));
}

#[test]
fn stale_commands_pass_only_on_the_expected_refusal() {
    let append = stale_precondition_outcome(CurrentContractCandidateKind::Append, "stale-review-ledger-command", Some("stale-append-precondition"))
        .expect("passed");
    assert_eq!(append.limitations.len(), 1);
    let sqlite = stale_precondition_outcome(
        CurrentContractCandidateKind::Sqlite,
        "stale-review-ledger-command",
        Some("stale-review-ledger-precondition"),
    )
    .expect("passed");
    assert!(sqlite.limitations.is_empty());
    assert_eq!(
        stale_precondition_outcome(CurrentContractCandidateKind::Sqlite, "stale-review-ledger-command", None).err(),
        Some("expected stale-review-ledger-precondition".to_owned())
    );
    assert_eq!(
        stale_precondition_outcome(CurrentContractCandidateKind::Sqlite, "stale-review-ledger-command", Some("other")).err(),
        Some("other".to_owned())
    );
}

#[test]
fn tampering_is_planned_per_candidate_and_scenario() {
    let sqlite = tamper_plan(CurrentContractCandidateKind::Sqlite, "source-locator-corruption").expect("plan");
    assert_eq!(sqlite.action, TamperAction::SourceLocator);
    assert_eq!(sqlite.label, "tamper_source_locator_for_test:source-locator-corruption");
    let derived = tamper_plan(CurrentContractCandidateKind::Sqlite, "derived-state-corruption-and-rebuild").expect("plan");
    assert_eq!(derived.arguments, vec!["not-a-derived-projection".to_owned()]);
    let append = tamper_plan(CurrentContractCandidateKind::Append, "review-ledger-order-corruption").expect("plan");
    assert_eq!(append.action, TamperAction::CommittedStateToken);
    assert_eq!(append.arguments, vec!["writer:promoted".to_owned(), "writer:ledger-order-tampered".to_owned()]);
    assert_eq!(
        tamper_limitation(CurrentContractCandidateKind::Append, "review-ledger-order-corruption", &append),
        "append: harness tamper `tamper_committed_state_for_test:review-ledger-order-corruption` exercises refusal for `review-ledger-order-corruption`"
    );
    assert_eq!(
        tamper_plan(CurrentContractCandidateKind::Append, "derived-state-corruption-and-rebuild").err(),
        Some("unsupported tamper for derived-state-corruption-and-rebuild".to_owned())
    );
    assert_eq!(expected_corruption_refusal_code(CurrentContractCandidateKind::Append, "x"), "commit-fingerprint-mismatch");
    assert_eq!(expected_corruption_refusal_code(CurrentContractCandidateKind::Sqlite, "x"), "canonical-corruption");
}

#[test]
fn run_configuration_labels_and_directories() {
    assert_eq!(AppendEvidenceVariant::Scoped01B3.configuration_label(), "01B-3");
    assert_eq!(SqliteEvidenceVariant::Historical01CSqlite2.configuration_label(), "01C-SQLITE-2");
    assert!(platform_append_requested(Some("yes")));
    assert!(!platform_append_requested(Some("no")));
    assert!(!platform_append_requested(None));
    assert_eq!(platform_directory("windows-x86_64"), "windows-github-actions");
    assert_eq!(platform_directory("macos-aarch64"), "macos-native");
}

#[test]
fn measurement_blocks_follow_the_contract_and_interleave() {
    let contract = comparative_measurement_contract();
    let blocks = measurement_blocks(&contract);
    let expected: usize = contract.operations.iter().map(|op| op.fixture_scales.len()).sum();
    assert_eq!(blocks.len(), expected);
    assert_eq!(blocks[0].operation, contract.operations[0].operation);
    assert_eq!(blocks[0].scale, contract.operations[0].fixture_scales[0]);
    assert_eq!(blocks[0].total_runs(), contract.operations[0].sample_count + contract.operations[0].warmup_count);
    assert!(!blocks[0].records(0) || contract.operations[0].warmup_count == 0);
    assert_eq!(sample_order(0), (CurrentContractCandidateKind::Append, CurrentContractCandidateKind::Sqlite));
    assert_eq!(sample_order(3), (CurrentContractCandidateKind::Sqlite, CurrentContractCandidateKind::Append));
}

fn block(operation: &str, scale: MeasurementFixtureScale) -> MeasurementBlock {
    MeasurementBlock { operation: operation.to_owned(), scale, sample_count: 2, warmup_count: 1 }
}

#[test]
fn block_aggregates_are_ordered_by_operation_then_scale() {
    let blocks = vec![
        block("open_cold", MeasurementFixtureScale::Small),
        block("close", MeasurementFixtureScale::Medium),
        block("close", MeasurementFixtureScale::Small),
    ];
    let samples = vec![
        vec![observed_sample(7_000_000, false, 1, 1)],
        vec![observed_sample(5_000_000, false, 1, 1), observed_sample(9_000_000, false, 1, 1)],
        vec![observed_sample(3_000_000, false, 1, 1)],
    ];
    let rows = aggregate_blocks(&sqlite_candidate(), "linux", &blocks, &samples, &vec![0, 1, 0]);
    let order: Vec<(String, MeasurementFixtureScale)> = rows.iter().map(|r| (r.operation.clone(), r.fixture_scale)).collect();
    assert_eq!(
        order,
        vec![
            ("close".to_owned(), MeasurementFixtureScale::Small),
            ("close".to_owned(), MeasurementFixtureScale::Medium),
            ("open_cold".to_owned(), MeasurementFixtureScale::Small),
        ]
    );
    assert_eq!(rows[0].minimum_ms, Some(3));
    assert_eq!(rows[1].maximum_ms, Some(9));
    assert_eq!(rows[1].p95_ms, Some(9));
    assert_eq!(rows[2].median_ms, Some(7));
}

#[test]
fn storage_keys_hash_the_session_id() {
    use_storage_key();
}

fn use_storage_key() {
    let key = voxproof_evidence::sqlite_authority::physical_storage_key("abc");
    assert_eq!(key, "vp-session-v1-ba7816bf8f01cfea414140de5dae2223b00361a396177a9cb410ff61f20015ad");
    let hostile = voxproof_evidence::sqlite_authority::physical_storage_key("../../etc");
    assert!(hostile.starts_with("vp-session-v1-"));
    assert!(!hostile.contains('/'));
    assert_eq!(hostile.len(), "vp-session-v1-".len() + 64);
}

#[test]
fn run_timestamps_pad_milliseconds() {
    use_timestamps();
}

fn use_timestamps() {
    assert_eq!(voxproof_evidence::evidence_01c::runner::format_timestamp_iso(12, 7), "12.007Z");
    assert_eq!(voxproof_evidence::evidence_01c::runner::format_timestamp_iso(1_700_000_000, 250), "1700000000.250Z");
}
