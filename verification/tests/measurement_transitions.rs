use voxproof_evidence::append_authority::{
    AppendAuthoritativeCandidateAdapter, AppendAuthoritySession, AppendCheckpointStatus, AppendOpenMode, AppendTailStatus,
    OpenedAppendAuthoritySession,
};
use voxproof_evidence::evidence_01c::candidate::{operation_timing, CurrentContractCandidate, OpenedCandidateSession};
use voxproof_evidence::sqlite_authority::{
    CurrentContractPreconditions, OpenedSqliteAuthoritySession, SqliteAuthoritativeCandidateAdapter, SqliteAuthoritySession,
    SqliteOpenMode,
};
use voxproof_evidence::sqlite_transition::{
    plan_sqlite_create, plan_sqlite_transition, verify_committed_transition, verify_created_authority,
};
use voxproof_evidence::evidence_01c::scenarios::expected_duplicated_state;
use voxproof_evidence::sqlite_load::{reconstruct_authority, validate_session_metadata};
use voxproof_evidence::append_scoped::{infer_command_scope, AppendCommandScope};
use voxproof_evidence::evidence_01c::measurement_transitions::{
    authority_changed_in_relevant_scope, build_medium_transcript_srt, format_srt_timestamp,
    genuine_stale_analysis_prepare_authority, genuine_stale_scenario_fixture, kafak_readings,
    measurement_transition_states, prepared_precondition_label, unrelated_scope_success_fixture,
    GenuineStaleCommandScope,
};
use voxproof_evidence::measurement::MeasurementFixtureScale;
use voxproof_evidence::model::{EvidenceDetectorIdentity, SameAs};
use voxproof_evidence::oracle::CurrentContractOracle;
use voxproof_evidence::production_bridge::{AnalysisConfigurationIdentity, ContractRules};
use voxproof_evidence::sqlite_scoped::SqliteCommandScope;

fn detector(id: &str, version: &str) -> EvidenceDetectorIdentity {
    EvidenceDetectorIdentity { id: id.to_owned(), version: version.to_owned() }
}

fn rules() -> ContractRules {
    ContractRules {
        canonical_configuration: AnalysisConfigurationIdentity {
            detectors: vec![detector("glossary-alias", "1")],
            detector_config_id: "glossary-review".to_owned(),
            detector_config_version: "1".to_owned(),
            algorithm_id: "term-review".to_owned(),
            algorithm_version: "1".to_owned(),
        },
        reuse_enabled_configuration: AnalysisConfigurationIdentity {
            detectors: vec![detector("glossary-alias", "1"), detector("reusable-correction", "1")],
            detector_config_id: "glossary-review-with-reuse".to_owned(),
            detector_config_version: "1".to_owned(),
            algorithm_id: "term-review".to_owned(),
            algorithm_version: "1".to_owned(),
        },
        max_manual_replacement_utf8_bytes: 1024,
    }
}

#[test]
fn append_authoritative_01b3_infer_scope_detects_single_write_set_change() {
    let rules = rules();
    let (precursor, target) =
        measurement_transition_states("append_review_decision", MeasurementFixtureScale::Small, &rules)
            .expect("review transition");
    assert_eq!(infer_command_scope(&precursor, &target).expect("scope"), AppendCommandScope::ReviewLedger);
    let (precursor, target) =
        measurement_transition_states("append_reusable_revocation", MeasurementFixtureScale::Small, &rules)
            .expect("reuse transition");
    assert_eq!(infer_command_scope(&precursor, &target).expect("scope"), AppendCommandScope::ReuseGovernance);
}

#[test]
fn sqlite_authoritative_01c3_infer_scope_detects_single_write_set_change() {
    let rules = rules();
    let (precursor, target) =
        measurement_transition_states("append_review_decision", MeasurementFixtureScale::Small, &rules)
            .expect("review transition");
    assert_eq!(voxproof_evidence::sqlite_scoped::infer_command_scope(&precursor, &target).expect("scope"), SqliteCommandScope::ReviewLedger);
    let (precursor, target) =
        measurement_transition_states("append_reusable_revocation", MeasurementFixtureScale::Small, &rules)
            .expect("reuse transition");
    assert_eq!(
        voxproof_evidence::sqlite_scoped::infer_command_scope(&precursor, &target).expect("scope"),
        SqliteCommandScope::ReuseGovernance
    );
}

#[test]
fn transition_pairs_share_session_id_per_operation() {
    let rules = rules();
    for operation in [
        "append_review_decision",
        "append_manual_replacement",
        "append_reusable_promotion",
        "append_reusable_revocation",
        "append_reusable_supersession",
    ] {
        for scale in [MeasurementFixtureScale::Small, MeasurementFixtureScale::Medium] {
            let (precursor, target) = measurement_transition_states(operation, scale, &rules)
                .unwrap_or_else(|| panic!("{operation} {scale:?}"));
            assert_eq!(precursor.session_id, target.session_id, "{operation} {scale:?}");
            assert!(
                !precursor.canonical_projection().same_as(&target.canonical_projection()),
                "{operation} {scale:?}"
            );
        }
    }
}

#[test]
fn genuine_stale_fixtures_cover_three_scopes_with_distinct_analysis_targets() {
    let rules = rules();
    let mut readings = kafak_readings(12);
    readings.extend(kafak_readings(1));
    for scenario_id in [
        "stale-review-ledger-command",
        "stale-reuse-governance-command",
        "stale-analysis-attachment-or-selection",
    ] {
        let fixture = genuine_stale_scenario_fixture(scenario_id, MeasurementFixtureScale::Small, &rules)
            .unwrap_or_else(|| panic!("{scenario_id}"));
        assert!(
            authority_changed_in_relevant_scope(fixture.scope, &fixture.prepare_authority, &fixture.competing_target),
            "{scenario_id}: competing target must advance relevant scope"
        );
        if fixture.scope == GenuineStaleCommandScope::ActiveAnalysis {
            let details = fixture.analysis_details.as_ref().expect("analysis stale fixture details");
            assert_ne!(details.analysis_identity_before, details.competing_identity_after);
            assert_ne!(details.analysis_identity_before, details.stale_command_target_identity);
            assert_ne!(details.competing_identity_after, details.stale_command_target_identity);
            assert!(CurrentContractOracle::validate(&fixture.prepare_authority, &rules, &readings).passed);
            assert!(CurrentContractOracle::validate(&fixture.competing_target, &rules, &readings).passed);
            assert!(CurrentContractOracle::validate(&fixture.prepared_target, &rules, &readings).passed);
        } else {
            assert!(fixture.competing_target.same_as(&fixture.prepared_target));
            assert!(fixture.analysis_details.is_none());
        }
    }
}

#[test]
fn transition_states_are_oracle_valid() {
    let rules = rules();
    for operation in [
        "append_review_decision",
        "append_manual_replacement",
        "append_reusable_promotion",
        "append_reusable_revocation",
        "append_reusable_supersession",
    ] {
        for (scale, segments) in [(MeasurementFixtureScale::Small, 1usize), (MeasurementFixtureScale::Medium, 12)] {
            let segments = if operation == "append_reusable_supersession" && segments == 1 { 2 } else { segments };
            let readings = kafak_readings(segments);
            let (precursor, target) = measurement_transition_states(operation, scale, &rules).expect("transition");
            for state in [&precursor, &target] {
                let result = CurrentContractOracle::validate(state, &rules, &readings);
                assert!(result.passed, "{operation} {scale:?}: {:?}", result.violations);
            }
        }
    }
}

#[test]
fn unknown_operation_has_no_transition() {
    assert!(measurement_transition_states("append_nothing", MeasurementFixtureScale::Small, &rules()).is_none());
    assert!(genuine_stale_scenario_fixture("stale-nothing", MeasurementFixtureScale::Small, &rules()).is_none());
}

#[test]
fn srt_timestamps_are_zero_padded() {
    assert_eq!(format_srt_timestamp(0), "00:00:00,000");
    assert_eq!(format_srt_timestamp(3_723_004), "01:02:03,004");
    assert_eq!(format_srt_timestamp(360_000_000), "100:00:00,000");
}

#[test]
fn medium_transcript_lists_one_second_cues() {
    assert_eq!(build_medium_transcript_srt(0), "");
    assert_eq!(
        build_medium_transcript_srt(2),
        "1\n00:00:00,000 --> 00:00:01,000\nKafak\n\n2\n00:00:01,000 --> 00:00:02,000\nKafak\n\n"
    );
    assert_eq!(build_medium_transcript_srt(12).matches("Kafak").count(), 12);
}

#[test]
fn unrelated_scope_advances_move_only_their_own_scope() {
    let (initial, reuse_only, review_target) = unrelated_scope_success_fixture(MeasurementFixtureScale::Small, &rules());
    assert_eq!(initial.session_id, "session:current-contract:measurement-medium");
    assert_eq!(
        initial.durable_command_tokens.review_ledger_head,
        reuse_only.durable_command_tokens.review_ledger_head
    );
    assert_ne!(
        initial.durable_command_tokens.reuse_governance_head,
        reuse_only.durable_command_tokens.reuse_governance_head
    );
    assert_ne!(
        initial.durable_command_tokens.review_ledger_head,
        review_target.durable_command_tokens.review_ledger_head
    );
}

#[test]
fn analysis_prepare_authority_knows_both_transcripts() {
    let state = genuine_stale_analysis_prepare_authority(MeasurementFixtureScale::Small, &rules());
    assert_eq!(state.source_revisions.len(), 2);
    assert_eq!(state.durable_command_tokens.review_ledger_head, 2);
    assert_eq!(state.durable_command_tokens.reuse_governance_head, 1);
}

#[test]
fn precondition_labels_name_the_scope_head() {
    let (precursor, _) =
        measurement_transition_states("append_reusable_revocation", MeasurementFixtureScale::Small, &rules())
            .expect("transition");
    assert_eq!(
        prepared_precondition_label(GenuineStaleCommandScope::ReviewLedger, &precursor),
        "review_ledger_head=1"
    );
    assert_eq!(
        prepared_precondition_label(GenuineStaleCommandScope::ReuseGovernance, &precursor),
        "reuse_governance_head=1"
    );
    let label = prepared_precondition_label(GenuineStaleCommandScope::ActiveAnalysis, &precursor);
    assert_eq!(
        label,
        format!(
            "active_analysis_snapshot_identity={}",
            precursor.durable_command_tokens.active_analysis_snapshot_identity
        )
    );
    assert!(!authority_changed_in_relevant_scope(GenuineStaleCommandScope::ActiveAnalysis, &precursor, &precursor));
}

fn stored_parts(
    state: &voxproof_evidence::model::CurrentContractState,
    fingerprint: String,
) -> (voxproof_evidence::sqlite_rows::SessionMetadata, voxproof_evidence::sqlite_load::CanonicalRows) {
    let state = state.clone();
    let metadata = voxproof_evidence::sqlite_rows::SessionMetadata {
        session_id: state.session_id.clone(),
        duplicated_from_session_id: state.duplicated_from_session_id.clone(),
        format_version: voxproof_evidence::sqlite_authority::SQLITE_AUTHORITATIVE_FORMAT_VERSION,
        committed_generation: 1,
        canonical_fingerprint: fingerprint,
        session_authority: state.session_authority.clone(),
        material_use_declaration: state.material_use_declaration.clone(),
        session_terms_identity: state.session_terms_identity.clone(),
        project_scope_stable_id: state.project_scope.stable_id.clone(),
        durable_review_ledger_head: state.durable_command_tokens.review_ledger_head,
        durable_reuse_governance_head: state.durable_command_tokens.reuse_governance_head,
        active_analysis_snapshot_identity: state.durable_command_tokens.active_analysis_snapshot_identity.clone(),
        evidence_writer_token: state.durable_command_tokens.evidence_writer_token.clone(),
    };
    let rows = voxproof_evidence::sqlite_load::CanonicalRows {
        source_revisions: state.source_revisions,
        analysis_snapshots: state.analysis_snapshots,
        review_cases: state.review_cases,
        review_ledger_events: state.review_ledger_events,
        reuse_governance_events: state.reuse_governance_events,
        reuse_enabled_analysis_binding: state.reuse_enabled_analysis_binding,
    };
    (metadata, rows)
}

#[test]
fn stored_rows_reconstruct_the_authority_they_were_written_from() {
    let rules = rules();
    let readings = kafak_readings(1);
    let (_, target) = measurement_transition_states("append_review_decision", MeasurementFixtureScale::Small, &rules)
        .expect("transition");
    let fingerprint = CurrentContractOracle::validate(&target, &rules, &readings).canonical_fingerprint;
    let (metadata, rows) = stored_parts(&target, fingerprint);
    assert!(validate_session_metadata(&metadata, &target.session_id).is_ok());
    let rebuilt = reconstruct_authority(&metadata, rows, &rules, &readings).expect("reconstructed");
    assert!(rebuilt.canonical_projection().same_as(&target.canonical_projection()));

    let (metadata, rows) = stored_parts(&target, "sha256:0000".to_owned());
    let refused = reconstruct_authority(&metadata, rows, &rules, &readings).err().expect("refused");
    assert_eq!(refused.code, "canonical-fingerprint-mismatch");
}

#[test]
fn stored_metadata_must_name_the_session_in_this_format() {
    let rules = rules();
    let (_, target) = measurement_transition_states("append_review_decision", MeasurementFixtureScale::Small, &rules)
        .expect("transition");
    let (mut metadata, _) = stored_parts(&target, String::new());
    assert_eq!(validate_session_metadata(&metadata, "another-session").err().expect("refused").code, "session-identity-mismatch");
    metadata.format_version += 1;
    assert_eq!(validate_session_metadata(&metadata, &target.session_id).err().expect("refused").code, "unsupported-newer-format");
    metadata.format_version = 0;
    assert_eq!(validate_session_metadata(&metadata, &target.session_id).err().expect("refused").code, "unsupported-format");
}

#[test]
fn duplicates_reopen_under_their_own_id_and_writer() {
    let rules = rules();
    let (_, target) = measurement_transition_states("append_review_decision", MeasurementFixtureScale::Small, &rules)
        .expect("transition");
    let duplicate = expected_duplicated_state(&target, "session:current-contract:duplicate-medium");
    assert_eq!(duplicate.session_id, "session:current-contract:duplicate-medium");
    assert_eq!(duplicate.duplicated_from_session_id.as_deref(), Some(target.session_id.as_str()));
    assert_eq!(duplicate.durable_command_tokens.evidence_writer_token, "writer:duplicate-medium");
    let encoded = expected_duplicated_state(&target, "ab");
    assert_eq!(encoded.durable_command_tokens.evidence_writer_token, "writer-encoded-session-id-v1:6162");
}

fn live_ownership() -> voxproof_evidence::sqlite_rows::WriterOwnership {
    voxproof_evidence::sqlite_rows::WriterOwnership {
        token: Some("writer-token".to_owned()),
        owner_epoch: 3,
        lease_duration_ms: 1_000,
        lease_expires_at_unix_ms: 5_000,
    }
}

#[test]
fn sqlite_transitions_are_planned_against_the_stored_authority() {
    let rules = rules();
    let readings = kafak_readings(1);
    let (precursor, target) = measurement_transition_states("append_review_decision", MeasurementFixtureScale::Small, &rules)
        .expect("transition");
    let (metadata, _) = stored_parts(&precursor, String::new());
    let preconditions = CurrentContractPreconditions {
        expected_generation: 1,
        review_ledger_head: metadata.durable_review_ledger_head,
        reuse_governance_head: metadata.durable_reuse_governance_head,
        active_analysis_snapshot_identity: metadata.active_analysis_snapshot_identity.clone(),
    };
    let ownership = live_ownership();
    let adapter = SqliteAuthoritativeCandidateAdapter::from_parts("/tmp/sqlite".to_owned(), "adapter-a".to_owned());
    let plan = |token: Option<&str>, session: &str, committed: &Vec<String>, generation: u64| {
        let p = CurrentContractPreconditions { expected_generation: generation, ..preconditions.clone() };
        let opened = OpenedSqliteAuthoritySession::from_parts(
            SqliteAuthoritySession::from_parts(session.to_owned(), "/tmp/sqlite/session".to_owned()),
            1,
            SqliteOpenMode::Writable,
            "adapter-a".to_owned(),
            token.map(|t| t.to_owned()),
            Some(3),
            precursor.clone(),
        );
        plan_sqlite_transition(&adapter, &opened, &ownership, 100, &metadata, &p, committed, &target, 100, &rules, &readings)
    };
    let planned = plan(Some("writer-token"), &precursor.session_id, &Vec::new(), 1).expect("planned");
    assert_eq!(planned.next_generation, 2);
    assert_eq!(planned.canonical_fingerprint, CurrentContractOracle::validate(&target, &rules, &readings).canonical_fingerprint);
    assert!(verify_committed_transition(&planned, 2, &planned.canonical_state, &rules, &readings).is_ok());
    assert_eq!(
        verify_committed_transition(&planned, 3, &planned.canonical_state, &rules, &readings).err().expect("refused").code,
        "post-commit-verification-failed"
    );
    assert_eq!(
        verify_committed_transition(&planned, 2, &precursor, &rules, &readings).err().expect("refused").code,
        "post-commit-verification-failed"
    );
    let committed = vec![planned.canonical_fingerprint.clone()];
    let code = |r: Result<voxproof_evidence::sqlite_transition::PlannedSqliteTransition, voxproof_evidence::sqlite_authority::SqliteAuthorityError>| {
        r.err().expect("refused").code
    };
    assert_eq!(code(plan(Some("writer-token"), &precursor.session_id, &committed, 1)), "semantic-duplicate-transition");
    assert_eq!(code(plan(None, &precursor.session_id, &Vec::new(), 1)), "not-authoritative-writer");
    let foreign = OpenedSqliteAuthoritySession::from_parts(
        SqliteAuthoritySession::from_parts(precursor.session_id.clone(), "/tmp/sqlite/session".to_owned()),
        1,
        SqliteOpenMode::Writable,
        "adapter-b".to_owned(),
        Some("writer-token".to_owned()),
        Some(3),
        precursor.clone(),
    );
    assert_eq!(adapter.validate_writable_handle(&foreign).err().expect("refused").code, "foreign-writer-handle");
    let preconditions_of_handle = foreign.authoritative_preconditions();
    assert_eq!(preconditions_of_handle.expected_generation, 1);
    assert_eq!(preconditions_of_handle.review_ledger_head, precursor.durable_command_tokens.review_ledger_head);
    assert_eq!(code(plan(Some("other-token"), &precursor.session_id, &Vec::new(), 1)), "writer-epoch-mismatch");
    assert_eq!(code(plan(Some("writer-token"), "session:elsewhere", &Vec::new(), 1)), "session-identity-transition");
    assert_eq!(code(plan(Some("writer-token"), &precursor.session_id, &Vec::new(), 0)), "stale-generation-precondition");
}

#[test]
fn sqlite_sessions_are_created_at_generation_one() {
    use_created(&rules());
}

fn use_created(rules: &ContractRules) {
    let readings = kafak_readings(1);
    let (precursor, _) = measurement_transition_states("append_review_decision", MeasurementFixtureScale::Small, rules)
        .expect("transition");
    let planned = plan_sqlite_create(&precursor, 100, rules, &readings).expect("planned");
    assert_eq!(planned.next_generation, 1);
    assert!(verify_created_authority(&planned, 1, &planned.canonical_state, rules, &readings).is_ok());
    assert!(verify_created_authority(&planned, 2, &planned.canonical_state, rules, &readings).is_err());
    assert_eq!(plan_sqlite_create(&precursor, 1 << 40, rules, &readings).err().expect("refused").code, "canonical-payload-too-large");
    let mut unsafe_id = precursor.clone();
    unsafe_id.session_id = "../escape".to_owned();
    assert_eq!(plan_sqlite_create(&unsafe_id, 100, rules, &readings).err().expect("refused").code, "unsafe-session-id");
}

#[test]
fn append_handles_must_hold_their_writer_lock() {
    let rules = rules();
    let (precursor, _) = measurement_transition_states("append_review_decision", MeasurementFixtureScale::Small, &rules)
        .expect("transition");
    let adapter = AppendAuthoritativeCandidateAdapter::from_parts("/tmp/append".to_owned(), "adapter-a".to_owned());
    let handle = |identity: &str, holds: bool, token: Option<&str>| {
        OpenedAppendAuthoritySession::from_parts(
            AppendAuthoritySession::from_parts(precursor.session_id.clone(), "/tmp/append/s".to_owned()),
            4,
            AppendTailStatus::Clean,
            AppendCheckpointStatus::Current,
            AppendOpenMode::Writable,
            identity.to_owned(),
            holds,
            token.map(|t| t.to_owned()),
            precursor.clone(),
        )
    };
    assert!(adapter.validate_writer_lock(&handle("adapter-a", true, Some("lock-1"))).is_ok());
    assert_eq!(adapter.validate_writer_lock(&handle("adapter-b", true, Some("lock-1"))).err().expect("refused").code, "foreign-writer-handle");
    assert_eq!(adapter.validate_writer_lock(&handle("adapter-a", true, None)).err().expect("refused").code, "not-authoritative-writer");
    assert_eq!(adapter.validate_writer_lock(&handle("adapter-a", false, Some("lock-1"))).err().expect("refused").code, "writer-lock-token-mismatch");
    assert_eq!(adapter.validate_writer_lock(&handle("adapter-a", true, Some(""))).err().expect("refused").code, "writer-lock-token-mismatch");

    let candidate = CurrentContractCandidate::Append { adapter, storage_root: "/tmp/append".to_owned() };
    let opened = OpenedCandidateSession::Append(handle("adapter-a", true, Some("lock-1")));
    let preconditions = candidate.authoritative_preconditions(&opened).expect("preconditions");
    assert_eq!(preconditions.expected_generation, 4);
    assert_eq!(preconditions.review_ledger_head, precursor.durable_command_tokens.review_ledger_head);
    assert_eq!(
        preconditions.active_analysis_snapshot_identity,
        precursor.durable_command_tokens.active_analysis_snapshot_identity
    );
}

#[test]
fn operation_timings_keep_the_failure_code() {
    let ok = operation_timing(12, &Ok(()));
    assert!(ok.succeeded);
    assert_eq!(ok.error_code, None);
    let failed = operation_timing(3, &Err("writer-already-open".to_owned()));
    assert!(!failed.succeeded);
    assert_eq!(failed.elapsed_ms, 3);
    assert_eq!(failed.error_code.as_deref(), Some("writer-already-open"));
}
