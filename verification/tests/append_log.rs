use voxproof_evidence::append_authority::{canonicalized_state, AppendCheckpointStatus, AppendOpenMode, AppendTailStatus};
use voxproof_evidence::append_protocol::{
    check_manifest_not_ahead, checkpoint_after_manifest_write, commit_records, duplicate_state, open_checkpoint_status,
    plan_append_transition, plan_cleanup, require_authoritative_writer, requires_tail_recovery, validate_manifest,
    validate_temporary_name, AppendManifest,
};
use voxproof_evidence::append_authority::AppendAuthorityError;
use voxproof_evidence::append_replay::{replay, AppendLogEntry, AppendRecord};
use voxproof_evidence::derivation::TranscriptReading;
use voxproof_evidence::evidence_01c::measurement_transitions::{kafak_readings, measurement_transition_states};
use voxproof_evidence::measurement::MeasurementFixtureScale;
use voxproof_evidence::model::{CurrentContractState, EvidenceDetectorIdentity, SameAs};
use voxproof_evidence::oracle::canonical_fingerprint;
use voxproof_evidence::production_bridge::{AnalysisConfigurationIdentity, ContractRules};

fn detector(id: &str, version: &str) -> EvidenceDetectorIdentity {
    EvidenceDetectorIdentity { id: id.to_owned(), version: version.to_owned() }
}

fn rules() -> ContractRules {
    ContractRules {
        canonical_configuration: AnalysisConfigurationIdentity {
            detectors: vec![detector("glossary-alias", "1")],
            detector_config_id: "glossary-review".to_owned(),
            detector_config_version: "1".to_owned(),
            algorithm_id: "term-review".to_owned(),
            algorithm_version: "1".to_owned(),
        },
        reuse_enabled_configuration: AnalysisConfigurationIdentity {
            detectors: vec![detector("glossary-alias", "1"), detector("reusable-correction", "1")],
            detector_config_id: "glossary-review-with-reuse".to_owned(),
            detector_config_version: "1".to_owned(),
            algorithm_id: "term-review".to_owned(),
            algorithm_version: "1".to_owned(),
        },
        max_manual_replacement_utf8_bytes: 1024,
    }
}

fn states() -> (CurrentContractState, CurrentContractState, Vec<TranscriptReading>) {
    let (a, b) = measurement_transition_states("append_review_decision", MeasurementFixtureScale::Small, &rules())
        .expect("transition");
    (a, b, kafak_readings(1))
}

fn fingerprint(state: &CurrentContractState, readings: &Vec<TranscriptReading>) -> String {
    canonical_fingerprint(&canonicalized_state(state.clone(), &rules(), readings).canonical_projection())
}

fn line(record: AppendRecord) -> AppendLogEntry {
    AppendLogEntry::Line { byte_len: 100, parsed: Ok(record) }
}

fn state_line(sequence: u64, state: &CurrentContractState) -> AppendLogEntry {
    line(AppendRecord::State { sequence, state: state.clone() })
}

fn commit_line(sequence: u64, fingerprint: &str) -> AppendLogEntry {
    line(AppendRecord::Commit { sequence, canonical_fingerprint: fingerprint.to_owned() })
}

fn code(result: Result<impl Sized, AppendAuthorityError>) -> &'static str {
    match result {
        Ok(_) => "ok",
        Err(e) => e.code,
    }
}

#[test]
fn replay_returns_last_committed_state_and_clean_tail() {
    let (a, b, readings) = states();
    let (fa, fb) = (fingerprint(&a, &readings), fingerprint(&b, &readings));
    let log = vec![state_line(1, &a), commit_line(1, &fa), state_line(2, &b), commit_line(2, &fb)];
    let result = replay(log, 400, &rules(), &readings).expect("replay");
    assert_eq!(result.committed_sequence, 2);
    assert_eq!(result.tail_status, AppendTailStatus::Clean);
    assert_eq!(result.canonical_fingerprints, vec![fa, fb.clone()]);
    assert_eq!(result.committed_byte_boundary, 400);
    assert_eq!(result.record_count, 4);
    assert_eq!(fingerprint(&result.state, &readings), fb);
}

#[test]
fn replay_reports_uncommitted_tails() {
    let (a, b, readings) = states();
    let fa = fingerprint(&a, &readings);
    let pending = vec![state_line(1, &a), commit_line(1, &fa), state_line(2, &b)];
    let result = replay(pending, 300, &rules(), &readings).expect("replay");
    assert_eq!(result.committed_sequence, 1);
    assert_eq!(result.tail_status, AppendTailStatus::IncompleteUncommitted { sequence: 2 });
    assert_eq!(result.committed_byte_boundary, 200);
    let torn = vec![state_line(1, &a), commit_line(1, &fa)];
    let result = replay(torn, 250, &rules(), &readings).expect("replay");
    assert_eq!(result.tail_status, AppendTailStatus::IncompleteUncommitted { sequence: 2 });
}

#[test]
fn replay_refuses_broken_logs() {
    let (a, b, readings) = states();
    let (fa, fb) = (fingerprint(&a, &readings), fingerprint(&b, &readings));
    let r = rules();
    assert_eq!(code(replay(vec![commit_line(1, &fa)], 100, &r, &readings)), "commit-without-state");
    assert_eq!(code(replay(vec![state_line(2, &a)], 100, &r, &readings)), "invalid-append-order");
    assert_eq!(code(replay(vec![state_line(1, &a), state_line(2, &b)], 200, &r, &readings)), "invalid-append-order");
    assert_eq!(code(replay(vec![state_line(1, &a), commit_line(2, &fa)], 200, &r, &readings)), "commit-sequence-mismatch");
    assert_eq!(code(replay(vec![state_line(1, &a), commit_line(1, &fb)], 200, &r, &readings)), "commit-fingerprint-mismatch");
    let repeated = vec![state_line(1, &a), commit_line(1, &fa), state_line(2, &a), commit_line(2, &fa)];
    assert_eq!(code(replay(repeated, 400, &r, &readings)), "duplicate-canonical-identity");
    assert_eq!(code(replay(Vec::new(), 0, &r, &readings)), "missing-committed-canonical-state");
    assert_eq!(code(replay(vec![state_line(1, &a)], 100, &r, &readings)), "missing-committed-canonical-state");
    let malformed = vec![AppendLogEntry::Line { byte_len: 5, parsed: Err("bad json".to_owned()) }];
    let err = replay(malformed, 5, &r, &readings).err().expect("malformed");
    assert_eq!(err.code, "malformed-authoritative-record");
    assert_eq!(err.message, "bad json");
    let unreadable = vec![AppendLogEntry::Unreadable {
        error: AppendAuthorityError::new("record-too-large", "append record exceeds bound"),
    }];
    assert_eq!(code(replay(unreadable, 0, &r, &readings)), "record-too-large");
    let mut invalid = b.clone();
    invalid.review_ledger_events[0].case_id = "review-case:99".to_owned();
    assert_eq!(code(replay(vec![state_line(1, &invalid)], 100, &r, &readings)), "current-contract-oracle-rejected");
}

#[test]
fn manifest_checks_follow_identity_then_format() {
    let manifest = |id: &str, version: u32| AppendManifest { format_version: version, session_id: id.to_owned(), committed_sequence: 0 };
    assert_eq!(code(validate_manifest("s", &manifest("s", 1), AppendOpenMode::Writable)), "ok");
    assert_eq!(code(validate_manifest("s", &manifest("t", 1), AppendOpenMode::Writable)), "manifest-session-identity-mismatch");
    assert_eq!(code(validate_manifest("s", &manifest("s", 2), AppendOpenMode::Writable)), "unsupported-newer-format");
    assert_eq!(code(validate_manifest("s", &manifest("s", 2), AppendOpenMode::ReadOnly)), "unsupported-format");
    assert_eq!(code(validate_manifest("s", &manifest("s", 0), AppendOpenMode::ReadOnly)), "unsupported-format");
}

#[test]
fn temporary_names_stay_inside_the_session() {
    assert_eq!(code(validate_temporary_name("tmp-1")), "ok");
    for name in ["", "a/b", "a\\b", ".", ".."] {
        assert_eq!(code(validate_temporary_name(name)), "unsafe-temporary-name", "{name}");
    }
}

#[test]
fn checkpoint_decisions_depend_on_mode() {
    assert_eq!(code(check_manifest_not_ahead(3, 2)), "manifest-ahead-of-append-authority");
    assert_eq!(code(check_manifest_not_ahead(2, 2)), "ok");
    assert!(requires_tail_recovery(AppendOpenMode::Writable, false));
    assert!(!requires_tail_recovery(AppendOpenMode::ReadOnly, false));
    assert!(!requires_tail_recovery(AppendOpenMode::Writable, true));
    let (status, repair) = open_checkpoint_status(1, 2, AppendOpenMode::Writable);
    assert!(matches!(status, AppendCheckpointStatus::Current) && repair);
    let (status, repair) = open_checkpoint_status(1, 2, AppendOpenMode::ReadOnly);
    assert!(matches!(status, AppendCheckpointStatus::Behind { last_error_code: "manifest-behind-append-authority" }) && !repair);
    let (status, repair) = open_checkpoint_status(2, 2, AppendOpenMode::ReadOnly);
    assert!(matches!(status, AppendCheckpointStatus::Current) && !repair);
    assert_eq!(code(require_authoritative_writer(AppendOpenMode::ReadOnly)), "not-authoritative-writer");
    assert_eq!(code(require_authoritative_writer(AppendOpenMode::Writable)), "ok");
    let behind = checkpoint_after_manifest_write(Err(AppendAuthorityError::new("write-manifest", "disk full")), false);
    assert!(matches!(behind, Ok(AppendCheckpointStatus::Behind { last_error_code: "write-manifest" })));
    let required = checkpoint_after_manifest_write(Err(AppendAuthorityError::new("write-manifest", "disk full")), true);
    assert_eq!(code(required), "write-manifest");
    assert!(matches!(checkpoint_after_manifest_write(Ok(()), true), Ok(AppendCheckpointStatus::Current)));
}

#[test]
fn append_plans_refuse_stale_foreign_and_repeated_states() {
    let (a, b, readings) = states();
    let r = rules();
    let fa = fingerprint(&a, &readings);
    let current = replay(vec![state_line(1, &a), commit_line(1, &fa)], 200, &r, &readings).expect("replay");
    let plan = plan_append_transition(0, &current, 1, &b, &a.session_id, &r, &readings).expect("plan");
    assert!(plan.repair_manifest);
    assert_eq!(plan.canonical_fingerprint, fingerprint(&b, &readings));
    assert_eq!(code(plan_append_transition(2, &current, 1, &b, &a.session_id, &r, &readings)), "manifest-ahead-of-append-authority");
    assert_eq!(code(plan_append_transition(1, &current, 0, &b, &a.session_id, &r, &readings)), "stale-append-precondition");
    assert_eq!(code(plan_append_transition(1, &current, 1, &b, "session:other", &r, &readings)), "session-identity-transition");
    assert_eq!(code(plan_append_transition(1, &current, 1, &a, &a.session_id, &r, &readings)), "semantic-duplicate-transition");
}

#[test]
fn commit_records_bind_the_next_sequence() {
    let (a, _, readings) = states();
    let r = rules();
    let (state, commit) = commit_records(4, 10, &a, &r, &readings).expect("records");
    match (state, commit) {
        (AppendRecord::State { sequence, .. }, AppendRecord::Commit { sequence: s2, canonical_fingerprint }) => {
            assert_eq!((sequence, s2), (5, 5));
            assert_eq!(canonical_fingerprint, fingerprint(&a, &readings));
        }
        _ => panic!("unexpected records"),
    }
    assert_eq!(code(commit_records(4, 4095, &a, &r, &readings)), "record-count-exhausted");
    assert_eq!(code(commit_records(u64::MAX, 0, &a, &r, &readings)), "append-sequence-overflow");
}

#[test]
fn duplicates_get_their_own_identity() {
    let (a, _, _) = states();
    let copy = duplicate_state(a.clone(), "session:current-contract:copy").expect("duplicate");
    assert_eq!(copy.session_id, "session:current-contract:copy");
    assert_eq!(copy.duplicated_from_session_id.as_deref(), Some(a.session_id.as_str()));
    assert_eq!(copy.durable_command_tokens.evidence_writer_token, "writer:copy");
    assert!(copy.canonical_projection().review_cases.len() == a.review_cases.len());
    assert_eq!(code(duplicate_state(a.clone(), "../escape")), "unsafe-session-id");
    let mut colliding = a.clone();
    colliding.durable_command_tokens.evidence_writer_token = "writer:copy".to_owned();
    assert_eq!(code(duplicate_state(colliding, "session:current-contract:copy")), "duplicate-evidence-writer-identity-collision");
    assert!(!a.same_as(&copy));
}

#[test]
fn cleanup_reports_sorted_safe_names_and_never_destroys() {
    let plan = plan_cleanup(vec!["b".to_owned(), "a/x".to_owned(), "a".to_owned(), "c\\d".to_owned(), "B".to_owned()]);
    assert_eq!(plan.temporary_artifacts, vec!["B".to_owned(), "a".to_owned(), "b".to_owned()]);
    assert!(!plan.destructive_cleanup_permitted);
}

#[test]
fn planned_appends_replay_as_what_they_committed() {
    let (a, b, readings) = states();
    let r = rules();
    let fa = fingerprint(&a, &readings);
    let mut log = vec![state_line(1, &a), commit_line(1, &fa)];
    let current = replay(vec![state_line(1, &a), commit_line(1, &fa)], 200, &r, &readings).expect("replay");
    let plan = plan_append_transition(1, &current, 1, &b, &a.session_id, &r, &readings).expect("plan");
    let (state_record, commit_record) =
        commit_records(current.committed_sequence, current.record_count, &plan.canonical_state, &r, &readings).expect("records");
    log.push(line(state_record));
    log.push(line(commit_record));
    let after = replay(log, 400, &r, &readings).expect("replay");
    assert_eq!(after.committed_sequence, 2);
    assert_eq!(after.tail_status, AppendTailStatus::Clean);
    assert_eq!(after.canonical_fingerprints, vec![fa, plan.canonical_fingerprint.clone()]);
    assert!(after.state.canonical_projection().same_as(&plan.canonical_state.canonical_projection()));
}

#[test]
fn fingerprints_carry_the_sha256_v1_tag() {
    let (a, _, readings) = states();
    let f = fingerprint(&a, &readings);
    assert!(f.starts_with("semantic:sha256-v1:"));
    assert_eq!(f.len(), "semantic:sha256-v1:".len() + 64);
}
