use voxproof_evidence::model::{
    EvidenceExactReusableCorrection, EvidenceGovernanceActor, EvidenceReuseCandidateKey, EvidenceReuseGovernanceEvent,
    EvidenceSourceDecisionLocator, SameAs,
};
use voxproof_evidence::sqlite_authority::{CurrentContractPreconditions, SqliteAuthorityError};
use voxproof_evidence::sqlite_rows::{
    governance_event_from_row, governance_storage_row, i64_to_u32, i64_to_u64, i64_to_usize, locator_from_values,
    plan_writer_acquisition, required_text, session_metadata_from_raw, u64_to_i64, usize_to_i64,
    validate_authority_transitions, validate_preconditions, validate_writer_ownership, RawSessionMetadata, SessionMetadata,
    WriterOwnership,
};

fn code<T>(result: Result<T, SqliteAuthorityError>) -> &'static str {
    match result {
        Ok(_) => "ok",
        Err(e) => e.code,
    }
}

fn locator(position: usize) -> EvidenceSourceDecisionLocator {
    EvidenceSourceDecisionLocator {
        source_revision_id: "rev:sha256-v1:abc".to_owned(),
        source_analysis_snapshot_identity: "analysis-snapshot:x".to_owned(),
        source_review_case_id: "review-case:0".to_owned(),
        review_ledger_position: position,
        decision_digest: "00ff".to_owned(),
        effective_at_ledger_length: position + 1,
    }
}

fn key() -> EvidenceReuseCandidateKey {
    EvidenceReuseCandidateKey {
        project_scope_stable_id: "proj-a".to_owned(),
        source_locator: locator(0),
        exact_payload: EvidenceExactReusableCorrection {
            observed_text: "Kafak".to_owned(),
            confirmed_replacement: "Kafka".to_owned(),
        },
    }
}

fn actor() -> EvidenceGovernanceActor {
    EvidenceGovernanceActor { role_label: "declared_local_owner_operator".to_owned(), display_label: "Ezra".to_owned() }
}

fn events() -> Vec<EvidenceReuseGovernanceEvent> {
    vec![
        EvidenceReuseGovernanceEvent::PromotionCandidateRejected { event_index: 0, candidate_key: key(), actor: actor() },
        EvidenceReuseGovernanceEvent::PromotionAccepted {
            event_index: 1,
            candidate_key: key(),
            payload: EvidenceExactReusableCorrection {
                observed_text: "Kafak".to_owned(),
                confirmed_replacement: "Kafka".to_owned(),
            },
            source_locator: locator(3),
            actor: actor(),
            project_scope_stable_id: "proj-a".to_owned(),
        },
        EvidenceReuseGovernanceEvent::ReusableInfluenceRevoked { event_index: 2, record_id: 1, actor: actor() },
        EvidenceReuseGovernanceEvent::ReusableInfluenceSuperseded {
            event_index: 3,
            predecessor_record_id: 1,
            successor_record_id: 4,
            actor: actor(),
        },
    ]
}

#[test]
fn governance_events_read_back_as_stored() {
    for event in events() {
        let row = governance_storage_row(&event).expect("row");
        let read = governance_event_from_row(&row).expect("read");
        assert!(read.same_as(&event));
    }
}

#[test]
fn governance_rows_fill_only_their_kind() {
    let row = governance_storage_row(&events()[2]).expect("row");
    assert_eq!(row.event_kind, "reusable_influence_revoked");
    assert_eq!(row.record_id, Some(1));
    assert_eq!(row.candidate_project_scope_stable_id, None);
    assert_eq!(row.promotion_locator_ledger_position, None);
    let accepted = governance_storage_row(&events()[1]).expect("row");
    assert_eq!(accepted.promotion_locator_ledger_position, Some(3));
    assert_eq!(accepted.candidate_locator_ledger_position, Some(0));
    assert_eq!(accepted.promotion_project_scope_stable_id.as_deref(), Some("proj-a"));
}

#[test]
fn damaged_governance_rows_are_refused() {
    let mut row = governance_storage_row(&events()[1]).expect("row");
    row.actor_display_label = None;
    let err = governance_event_from_row(&row).err().expect("missing actor");
    assert_eq!(err.code, "canonical-corruption");
    assert_eq!(err.message, "missing required actor_display_label in relational authority");
    let mut row = governance_storage_row(&events()[0]).expect("row");
    row.event_kind = "promotion_forgotten".to_owned();
    let err = governance_event_from_row(&row).err().expect("unknown kind");
    assert_eq!(err.message, "unknown reuse governance event kind");
    let mut row = governance_storage_row(&events()[3]).expect("row");
    row.event_index = -1;
    assert_eq!(code(governance_event_from_row(&row)), "canonical-corruption");
    let huge = EvidenceReuseGovernanceEvent::ReusableInfluenceRevoked { event_index: usize::MAX, record_id: 0, actor: actor() };
    assert_eq!(code(governance_storage_row(&huge)), "integer-range");
}

#[test]
fn integer_conversions_guard_their_ranges() {
    assert_eq!(usize_to_i64(7).ok(), Some(7));
    assert_eq!(code(usize_to_i64(usize::MAX)), "integer-range");
    assert_eq!(i64_to_usize(7).ok(), Some(7));
    assert_eq!(code(i64_to_usize(-1)), "canonical-corruption");
    assert_eq!(i64_to_u64(0).ok(), Some(0));
    assert_eq!(code(i64_to_u64(-5)), "canonical-corruption");
    assert_eq!(i64_to_u32(4_294_967_295).ok(), Some(u32::MAX));
    assert_eq!(code(i64_to_u32(4_294_967_296)), "canonical-corruption");
    assert_eq!(u64_to_i64(9).ok(), Some(9));
    assert_eq!(code(u64_to_i64(u64::MAX)), "integer-range");
    assert_eq!(required_text(Some("x".to_owned()), "field").ok().as_deref(), Some("x"));
    assert_eq!(
        required_text(None, "source_revision_id").err().expect("missing").message,
        "missing required source_revision_id in relational authority"
    );
    let err = locator_from_values(Some("r".to_owned()), Some("s".to_owned()), Some("c".to_owned()), None, None, None)
        .err()
        .expect("missing position");
    assert_eq!(err.message, "missing required review_ledger_position in relational authority");
}

fn raw(generation: i64) -> RawSessionMetadata {
    RawSessionMetadata {
        session_id: "session:s".to_owned(),
        duplicated_from_session_id: None,
        format_version: 1,
        committed_generation: generation,
        canonical_fingerprint: "semantic:sha256-v1:aa".to_owned(),
        session_authority_role_label: "declared_local_owner_operator".to_owned(),
        session_authority_display_label: "Ezra".to_owned(),
        material_use_basis: "self_owned".to_owned(),
        session_terms_identity: "session-terms:sha256-v1:bb".to_owned(),
        project_scope_stable_id: "proj-a".to_owned(),
        durable_review_ledger_head: 2,
        durable_reuse_governance_head: 1,
        active_analysis_snapshot_identity: "analysis-snapshot:x".to_owned(),
        evidence_writer_token: "writer:s".to_owned(),
    }
}

fn metadata() -> SessionMetadata {
    session_metadata_from_raw(raw(2)).expect("metadata")
}

fn preconditions(generation: u64, review: usize, reuse: usize, active: &str) -> CurrentContractPreconditions {
    CurrentContractPreconditions {
        expected_generation: generation,
        review_ledger_head: review,
        reuse_governance_head: reuse,
        active_analysis_snapshot_identity: active.to_owned(),
    }
}

#[test]
fn session_metadata_converts_stored_integers() {
    let m = metadata();
    assert_eq!(m.committed_generation, 2);
    assert_eq!(m.durable_review_ledger_head, 2);
    assert_eq!(m.session_authority.display_label, "Ezra");
    assert_eq!(code(session_metadata_from_raw(raw(-1))), "canonical-corruption");
}

#[test]
fn preconditions_must_match_the_stored_authority() {
    let m = metadata();
    assert_eq!(code(validate_preconditions(&m, &preconditions(2, 2, 1, "analysis-snapshot:x"))), "ok");
    assert_eq!(code(validate_preconditions(&m, &preconditions(1, 2, 1, "analysis-snapshot:x"))), "stale-generation-precondition");
    assert_eq!(code(validate_preconditions(&m, &preconditions(2, 3, 1, "analysis-snapshot:x"))), "stale-review-ledger-precondition");
    assert_eq!(code(validate_preconditions(&m, &preconditions(2, 2, 0, "analysis-snapshot:x"))), "stale-reuse-governance-precondition");
    assert_eq!(code(validate_preconditions(&m, &preconditions(2, 2, 1, "analysis:stale"))), "stale-analysis-selection-precondition");
}

#[test]
fn transition_log_must_be_contiguous_and_bind_the_metadata() {
    let m = metadata();
    let ok = vec![Ok((1, "semantic:sha256-v1:00".to_owned())), Ok((2, "semantic:sha256-v1:aa".to_owned()))];
    assert_eq!(code(validate_authority_transitions(ok, &m)), "ok");
    let gap = vec![Ok((1, "f".to_owned())), Ok((3, "semantic:sha256-v1:aa".to_owned()))];
    let err = validate_authority_transitions(gap, &m).err().expect("gap");
    assert_eq!(err.message, "authority transition generations are not contiguous");
    let unbound = vec![Ok((1, "f".to_owned())), Ok((2, "g".to_owned()))];
    let err = validate_authority_transitions(unbound, &m).err().expect("unbound");
    assert_eq!(err.message, "transition log does not bind the current relational authority");
    let short = vec![Ok((1, "semantic:sha256-v1:aa".to_owned()))];
    assert_eq!(code(validate_authority_transitions(short, &m)), "canonical-corruption");
    let unreadable = vec![Err(SqliteAuthorityError::new("canonical-corruption", "row"))];
    assert_eq!(code(validate_authority_transitions(unreadable, &m)), "canonical-corruption");
}

#[test]
fn one_live_writer_owns_the_authority() {
    let free = WriterOwnership { token: None, owner_epoch: 0, lease_duration_ms: 30_000, lease_expires_at_unix_ms: 0 };
    assert_eq!(plan_writer_acquisition(&free, 1_000).ok(), Some((0, 31_000)));
    let held = WriterOwnership { token: Some("w1".to_owned()), owner_epoch: 0, lease_duration_ms: 30_000, lease_expires_at_unix_ms: 31_000 };
    assert_eq!(code(plan_writer_acquisition(&held, 20_000)), "writer-already-open");
    assert_eq!(plan_writer_acquisition(&held, 31_000).ok(), Some((1, 61_000)));
    assert_eq!(code(validate_writer_ownership(&held, "w1", 0, 20_000)), "ok");
    assert_eq!(code(validate_writer_ownership(&held, "w2", 0, 20_000)), "writer-epoch-mismatch");
    assert_eq!(code(validate_writer_ownership(&held, "w1", 1, 20_000)), "writer-epoch-mismatch");
    assert_eq!(code(validate_writer_ownership(&held, "w1", 0, 31_000)), "writer-lease-expired");
    let overflow = WriterOwnership { token: None, owner_epoch: 0, lease_duration_ms: i64::MAX, lease_expires_at_unix_ms: 0 };
    assert_eq!(code(plan_writer_acquisition(&overflow, 1)), "lease-overflow");
}
