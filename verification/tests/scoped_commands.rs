use voxproof_evidence::append_scoped::{
    validate_scoped_preconditions as append_validate, AppendCommandScope, AppendScopedCommand, AppendScopedPreconditions,
};
use voxproof_evidence::evidence_01c::candidate::{
    unique_session_id_for_sample, updated_writer_token_state, CurrentContractCandidateKind,
};
use voxproof_evidence::evidence_01c::scenarios::{expected_stale_code_for_test, stale_preconditions_for_test};
use voxproof_evidence::evidence_01c::measurement_transitions::{
    genuine_stale_scenario_fixture, kafak_readings, measurement_transition_states,
};
use voxproof_evidence::evidence_01c::runner::{
    invalid_evidence_chain, AppendEvidenceVariant, SqliteEvidenceVariant, CORRECTION_02_EVIDENCE_SHA,
    CORRECTION_02_HARNESS_SHA, DUAL_SCOPED_EVIDENCE_WORK_PACKAGE_ID, WORK_PACKAGE_ID,
};
use voxproof_evidence::measurement::MeasurementFixtureScale;
use voxproof_evidence::model::{EvidenceDetectorIdentity, SameAs};
use voxproof_evidence::oracle::{canonical_fingerprint, CurrentContractOracle};
use voxproof_evidence::production_bridge::{AnalysisConfigurationIdentity, ContractRules};
use voxproof_evidence::sqlite_authority::CurrentContractPreconditions;
use voxproof_evidence::sqlite_scoped::{
    command_scope_for_measurement_operation, command_scope_for_stale_scenario, validate_scoped_preconditions, SqliteCommandScope,
    SqliteScopedCommand, SqliteScopedPreconditions,
};

fn detector(id: &str, version: &str) -> EvidenceDetectorIdentity {
    EvidenceDetectorIdentity { id: id.to_owned(), version: version.to_owned() }
}

fn rules() -> ContractRules {
    ContractRules {
        canonical_configuration: AnalysisConfigurationIdentity {
            detectors: vec![detector("glossary-alias", "1")],
            detector_config_id: "glossary-review".to_owned(),
            detector_config_version: "1".to_owned(),
            algorithm_id: "term-review".to_owned(),
            algorithm_version: "1".to_owned(),
        },
        reuse_enabled_configuration: AnalysisConfigurationIdentity {
            detectors: vec![detector("glossary-alias", "1"), detector("reusable-correction", "1")],
            detector_config_id: "glossary-review-with-reuse".to_owned(),
            detector_config_version: "1".to_owned(),
            algorithm_id: "term-review".to_owned(),
            algorithm_version: "1".to_owned(),
        },
        max_manual_replacement_utf8_bytes: 1024,
    }
}

#[test]
fn commands_prepared_before_a_competing_command_are_stale() {
    let rules = rules();
    for (scenario, scope, code) in [
        ("stale-review-ledger-command", SqliteCommandScope::ReviewLedger, "stale-review-ledger-precondition"),
        ("stale-reuse-governance-command", SqliteCommandScope::ReuseGovernance, "stale-reuse-governance-precondition"),
    ] {
        let fixture = genuine_stale_scenario_fixture(scenario, MeasurementFixtureScale::Small, &rules).expect("fixture");
        let prepared = SqliteScopedPreconditions::from_authority_at_command_prepare(&fixture.prepare_authority);
        assert!(validate_scoped_preconditions(&fixture.prepare_authority, scope, &prepared).is_ok());
        let err = validate_scoped_preconditions(&fixture.competing_target, scope, &prepared).err().expect("stale");
        assert_eq!(err.code, code);
        assert_eq!(err.code, fixture.expected_failure_code);
    }
    let fixture = genuine_stale_scenario_fixture("stale-review-ledger-command", MeasurementFixtureScale::Small, &rules)
        .expect("fixture");
    let prepared = AppendScopedPreconditions::from_authority_at_command_prepare(&fixture.prepare_authority);
    assert!(append_validate(&fixture.prepare_authority, AppendCommandScope::ReviewLedger, &prepared).is_ok());
    let err = append_validate(&fixture.competing_target, AppendCommandScope::ReviewLedger, &prepared).err().expect("stale");
    assert_eq!(err.code, "stale-review-ledger-precondition");
}

#[test]
fn a_scoped_command_reproduces_its_target_on_its_precursor() {
    let rules = rules();
    let readings = kafak_readings(1);
    let (precursor, target) =
        measurement_transition_states("append_review_decision", MeasurementFixtureScale::Small, &rules).expect("pair");
    let command = SqliteScopedCommand::from_transition_pair(SqliteCommandScope::ReviewLedger, &precursor, &target);
    let applied = command.apply_onto(&precursor, &rules, &readings).expect("apply");
    assert_eq!(
        canonical_fingerprint(&applied.canonical_projection()),
        canonical_fingerprint(&target.canonical_projection())
    );
    let command = AppendScopedCommand::from_transition_pair(AppendCommandScope::ReviewLedger, &precursor, &target);
    let applied = command.apply_onto(&precursor, &rules, &readings).expect("apply");
    assert!(CurrentContractOracle::compare(&target, &applied, &rules, &readings).passed);
}

#[test]
fn stale_expectations_differ_by_candidate() {
    let baseline = CurrentContractPreconditions {
        expected_generation: 3,
        review_ledger_head: 2,
        reuse_governance_head: 1,
        active_analysis_snapshot_identity: "analysis-snapshot:x".to_owned(),
    };
    let append = stale_preconditions_for_test(CurrentContractCandidateKind::Append, "stale-review-ledger-command", &baseline);
    assert_eq!((append.expected_generation, append.review_ledger_head), (2, 2));
    let review = stale_preconditions_for_test(CurrentContractCandidateKind::Sqlite, "stale-review-ledger-command", &baseline);
    assert_eq!((review.expected_generation, review.review_ledger_head), (3, 3));
    let reuse = stale_preconditions_for_test(CurrentContractCandidateKind::Sqlite, "stale-reuse-governance-command", &baseline);
    assert_eq!(reuse.reuse_governance_head, 2);
    let analysis =
        stale_preconditions_for_test(CurrentContractCandidateKind::Sqlite, "stale-analysis-attachment-or-selection", &baseline);
    assert_eq!(analysis.active_analysis_snapshot_identity, "analysis:stale");
    let other = stale_preconditions_for_test(CurrentContractCandidateKind::Sqlite, "stale-generation", &baseline);
    assert_eq!(other.expected_generation, 2);
    let zero = CurrentContractPreconditions { expected_generation: 0, ..baseline.clone() };
    assert_eq!(stale_preconditions_for_test(CurrentContractCandidateKind::Append, "x", &zero).expected_generation, 0);
    assert_eq!(expected_stale_code_for_test(CurrentContractCandidateKind::Append, "stale-review-ledger-command"), "stale-append-precondition");
    assert_eq!(
        expected_stale_code_for_test(CurrentContractCandidateKind::Sqlite, "stale-analysis-attachment-or-selection"),
        "stale-analysis-selection-precondition"
    );
    assert_eq!(expected_stale_code_for_test(CurrentContractCandidateKind::Sqlite, "other"), "stale-generation-precondition");
    assert_eq!(command_scope_for_stale_scenario("stale-reuse-governance-command"), Some(SqliteCommandScope::ReuseGovernance));
    assert_eq!(command_scope_for_measurement_operation("append_manual_replacement"), Some(SqliteCommandScope::ReviewLedger));
    assert_eq!(command_scope_for_measurement_operation("open_cold"), None);
}

#[test]
fn writer_hand_over_keeps_content_and_replaces_the_token() {
    let rules = rules();
    let readings = kafak_readings(1);
    let (state, _) = measurement_transition_states("append_manual_replacement", MeasurementFixtureScale::Small, &rules)
        .expect("pair");
    let handed = updated_writer_token_state(state.clone(), "writer:next", &rules, &readings);
    assert_eq!(handed.durable_command_tokens.evidence_writer_token, "writer:next");
    assert_eq!(handed.review_ledger_events.len(), state.review_ledger_events.len());
    assert!(unique_session_id_for_sample(&state, 3).same_as(&state));
}

#[test]
fn evidence_runs_name_their_variants_and_predecessors() {
    assert_eq!(AppendEvidenceVariant::from_label(Some("01b-3")), AppendEvidenceVariant::Scoped01B3);
    assert_eq!(AppendEvidenceVariant::from_label(Some("01B-2")), AppendEvidenceVariant::Historical01B2);
    assert_eq!(AppendEvidenceVariant::from_label(None), AppendEvidenceVariant::Historical01B2);
    assert_eq!(SqliteEvidenceVariant::from_label(Some("sqlite-01c3")), SqliteEvidenceVariant::Scoped01CSqlite3);
    assert_eq!(SqliteEvidenceVariant::from_label(Some("x")), SqliteEvidenceVariant::Historical01CSqlite2);
    assert_eq!(
        AppendEvidenceVariant::Scoped01B3.work_package_id(SqliteEvidenceVariant::Scoped01CSqlite3),
        DUAL_SCOPED_EVIDENCE_WORK_PACKAGE_ID
    );
    assert_eq!(
        AppendEvidenceVariant::Scoped01B3.work_package_id(SqliteEvidenceVariant::Historical01CSqlite2),
        "VP-GATE4-APPEND-01B-3-EVIDENCE-EXECUTION-01"
    );
    assert_eq!(AppendEvidenceVariant::Historical01B2.work_package_id(SqliteEvidenceVariant::Scoped01CSqlite3), WORK_PACKAGE_ID);
    let chain = invalid_evidence_chain(CORRECTION_02_HARNESS_SHA, CORRECTION_02_EVIDENCE_SHA);
    assert_eq!(chain.len(), 5);
    assert_eq!(chain[2].harness_sha, CORRECTION_02_HARNESS_SHA);
    assert_eq!(chain[2].verdict, "invalid_for_gate_preserve");
    assert_eq!(chain[4].verdict, "invalid_for_final_gate_preserve");
}
