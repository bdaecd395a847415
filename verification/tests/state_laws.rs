use voxproof_evidence::append_authority::canonicalized_state;
use voxproof_evidence::derivation::{derive_contract_projection, finalize_derived_fields, TranscriptReading};
use voxproof_evidence::evidence_01c::measurement_transitions::{kafak_readings, measurement_transition_states};
use voxproof_evidence::measurement::MeasurementFixtureScale;
use sha2::Digest;
use voxproof_evidence::model::{
    vec_same, CurrentContractCanonicalProjection, CurrentContractState, DerivedContractProjection,
    EvidenceCorrectionDecision, EvidenceDetectorIdentity, EvidenceDurableCommandTokens, EvidenceEffectiveReviewStatus,
    EvidenceGovernanceActor, EvidenceMaterialUseDeclaration, EvidenceReuseGovernanceEvent, EvidenceReviewLedgerEvent,
    EvidenceSessionAuthority, EvidenceSourceRevision, SameAs,
};
use voxproof_evidence::violations::OracleViolationCodeV3;
use voxproof_evidence::oracle::{canonical_fingerprint, derived_fingerprint, CurrentContractOracle};
use voxproof_evidence::production_bridge::{AnalysisConfigurationIdentity, ContractRules};

fn detector(id: &str, version: &str) -> EvidenceDetectorIdentity {
    EvidenceDetectorIdentity { id: id.to_owned(), version: version.to_owned() }
}

fn rules() -> ContractRules {
    ContractRules {
        canonical_configuration: AnalysisConfigurationIdentity {
            detectors: vec![detector("glossary-alias", "1")],
            detector_config_id: "glossary-review".to_owned(),
            detector_config_version: "1".to_owned(),
            algorithm_id: "term-review".to_owned(),
            algorithm_version: "1".to_owned(),
        },
        reuse_enabled_configuration: AnalysisConfigurationIdentity {
            detectors: vec![detector("glossary-alias", "1"), detector("reusable-correction", "1")],
            detector_config_id: "glossary-review-with-reuse".to_owned(),
            detector_config_version: "1".to_owned(),
            algorithm_id: "term-review".to_owned(),
            algorithm_version: "1".to_owned(),
        },
        max_manual_replacement_utf8_bytes: 1024,
    }
}

fn target_state() -> (CurrentContractState, Vec<TranscriptReading>) {
    let (_, target) = measurement_transition_states("append_review_decision", MeasurementFixtureScale::Small, &rules())
        .expect("transition");
    (target, kafak_readings(1))
}

fn shuffled(state: &CurrentContractState) -> CurrentContractState {
    let mut s = state.duplicate();
    s.review_ledger_events.reverse();
    s.review_cases.reverse();
    s.source_revisions.reverse();
    s.effective_review_status.reverse();
    s
}

#[test]
fn normalize_orders_collections_and_is_idempotent() {
    let (mut target, _) = target_state();
    assert!(!target.review_ledger_events.is_empty());
    let mut extra = target.review_ledger_events[0].duplicate();
    extra.event_index = target.review_ledger_events.len() + 3;
    target.review_ledger_events.push(extra);
    let mixed = shuffled(&target);
    assert!(mixed.review_ledger_events[0].event_index > mixed.review_ledger_events[1].event_index);
    let once = mixed.duplicate().normalize();
    let indexes: Vec<usize> = once.review_ledger_events.iter().map(|e| e.event_index).collect();
    let mut expected = indexes.clone();
    expected.sort();
    assert_eq!(indexes, expected);
    assert_eq!(once.review_ledger_events.len(), mixed.review_ledger_events.len());
    assert_eq!(once.review_cases.len(), mixed.review_cases.len());
    let twice = once.duplicate().normalize();
    assert!(twice.same_as(&once));
    assert!(once.same_as(&target.duplicate().normalize()));
}

#[test]
fn validate_reports_the_same_after_normalization() {
    let (target, readings) = target_state();
    let mixed = shuffled(&target);
    let direct = CurrentContractOracle::validate(&mixed, &rules(), &readings);
    let normalized = CurrentContractOracle::validate(&mixed.duplicate().normalize(), &rules(), &readings);
    assert_eq!(direct.passed, normalized.passed);
    assert_eq!(direct.violations.len(), normalized.violations.len());
    assert_eq!(direct.canonical_fingerprint, normalized.canonical_fingerprint);
    assert_eq!(direct.derived_fingerprint, normalized.derived_fingerprint);
    assert!(direct.passed);
}

#[test]
fn finalizing_derived_fields_twice_changes_nothing() {
    let (target, readings) = target_state();
    let mut stale = target.duplicate();
    stale.effective_review_status.clear();
    stale.derived_queue_projection = "queue:stale:0".to_owned();
    let mut once = stale.duplicate();
    finalize_derived_fields(&mut once, &rules(), &readings);
    assert!(once.canonical_projection().same_as(&stale.canonical_projection()));
    assert_ne!(once.derived_queue_projection, "queue:stale:0");
    let mut twice = once.duplicate();
    finalize_derived_fields(&mut twice, &rules(), &readings);
    assert!(twice.same_as(&once));
}

#[test]
fn canonicalizing_a_canonical_state_changes_nothing() {
    let (target, readings) = target_state();
    let once = canonicalized_state(target.duplicate(), &rules(), &readings);
    let twice = canonicalized_state(once.duplicate(), &rules(), &readings);
    assert!(twice.same_as(&once));
}

#[test]
fn a_refused_governance_event_leaves_the_records_as_they_were() {
    let (_, target) = measurement_transition_states("append_reusable_revocation", MeasurementFixtureScale::Small, &rules())
        .expect("transition");
    let readings = kafak_readings(1);
    let repeated = match target.reuse_governance_events.last().expect("a governance event") {
        EvidenceReuseGovernanceEvent::ReusableInfluenceRevoked { record_id, actor, .. } => {
            EvidenceReuseGovernanceEvent::ReusableInfluenceRevoked {
                event_index: target.reuse_governance_events.len(),
                record_id: *record_id,
                actor: actor.duplicate(),
            }
        },
        _ => panic!("the last governance event is a revocation"),
    };
    let mut again = target.duplicate();
    again.reuse_governance_events.push(repeated);
    let (before, before_findings) = derive_contract_projection(&target, &rules(), &readings);
    let (after, after_findings) = derive_contract_projection(&again, &rules(), &readings);
    assert!(before_findings.is_empty());
    assert!(after_findings.iter().any(|d| d.code == OracleViolationCodeV3::RevokeInactiveRecord));
    assert!(vec_same(&after.effective_reusable_records, &before.effective_reusable_records));
    assert!(vec_same(&after.historical_reusable_records, &before.historical_reusable_records));
}

fn json(s: &str) -> String {
    serde_json::to_string(s).expect("a string serializes")
}

fn sha256_hex(text: &str) -> String {
    sha2::Sha256::digest(text.as_bytes()).iter().map(|b| format!("{b:02x}")).collect()
}

#[test]
fn canonical_fingerprint_hashes_the_json_text() {
    let tricky = "quote \" back \\ line\n tab\t bell\u{7} unit\u{1f} é 日本";
    let projection = CurrentContractCanonicalProjection {
        session_id: "session-1".to_owned(),
        duplicated_from_session_id: None,
        session_authority: EvidenceSessionAuthority { role_label: "owner".to_owned(), display_label: tricky.to_owned() },
        material_use_declaration: EvidenceMaterialUseDeclaration { basis: "own".to_owned() },
        source_revisions: vec![EvidenceSourceRevision {
            revision_id: "rev:a".to_owned(),
            predecessor_revision_id: Some("rev:0".to_owned()),
            transcript_bytes: "1\n00:00:00,000 --> 00:00:01,000\nKafak\n".to_owned(),
        }],
        session_terms_identity: "terms".to_owned(),
        analysis_snapshots: vec![],
        review_cases: vec![],
        review_ledger_events: vec![
            EvidenceReviewLedgerEvent {
                event_index: 0,
                case_id: "case-1".to_owned(),
                observed_revision_id: "rev:a".to_owned(),
                action_kind: "accept_alternative".to_owned(),
                manual_replacement_bytes: None,
                alternative_index: Some(2),
                target_event_index: None,
                provenance: "human".to_owned(),
            },
            EvidenceReviewLedgerEvent {
                event_index: 1,
                case_id: "case-2".to_owned(),
                observed_revision_id: "rev:a".to_owned(),
                action_kind: "manual_replacement".to_owned(),
                manual_replacement_bytes: Some("Kafka".to_owned()),
                alternative_index: None,
                target_event_index: Some(0),
                provenance: "human".to_owned(),
            },
        ],
        project_scope_stable_id: "proj-a".to_owned(),
        reuse_governance_events: vec![EvidenceReuseGovernanceEvent::ReusableInfluenceRevoked {
            event_index: 0,
            record_id: 7,
            actor: EvidenceGovernanceActor { role_label: "owner".to_owned(), display_label: "Owner".to_owned() },
        }],
        reuse_enabled_analysis_binding: None,
        durable_command_tokens: EvidenceDurableCommandTokens {
            review_ledger_head: 2,
            reuse_governance_head: 1,
            active_analysis_snapshot_identity: "snap".to_owned(),
            evidence_writer_token: "token".to_owned(),
        },
    };
    let expected = format!(
        "{{\"session_id\":\"session-1\",\"duplicated_from_session_id\":null,\
         \"session_authority\":{{\"role_label\":\"owner\",\"display_label\":{}}},\
         \"material_use_declaration\":{{\"basis\":\"own\"}},\
         \"source_revisions\":[{{\"revision_id\":\"rev:a\",\"predecessor_revision_id\":\"rev:0\",\"transcript_bytes\":{}}}],\
         \"session_terms_identity\":\"terms\",\"analysis_snapshots\":[],\"review_cases\":[],\
         \"review_ledger_events\":[\
         {{\"event_index\":0,\"case_id\":\"case-1\",\"observed_revision_id\":\"rev:a\",\"action_kind\":\"accept_alternative\",\
         \"manual_replacement_bytes\":null,\"alternative_index\":2,\"target_event_index\":null,\"provenance\":\"human\"}},\
         {{\"event_index\":1,\"case_id\":\"case-2\",\"observed_revision_id\":\"rev:a\",\"action_kind\":\"manual_replacement\",\
         \"manual_replacement_bytes\":\"Kafka\",\"alternative_index\":null,\"target_event_index\":0,\"provenance\":\"human\"}}],\
         \"project_scope_stable_id\":\"proj-a\",\
         \"reuse_governance_events\":[{{\"event_kind\":\"reusable_influence_revoked\",\"event_index\":0,\"record_id\":7,\
         \"actor\":{{\"role_label\":\"owner\",\"display_label\":\"Owner\"}}}}],\
         \"reuse_enabled_analysis_binding\":null,\
         \"durable_command_tokens\":{{\"review_ledger_head\":2,\"reuse_governance_head\":1,\
         \"active_analysis_snapshot_identity\":\"snap\",\"evidence_writer_token\":\"token\"}}}}",
        json(tricky),
        json("1\n00:00:00,000 --> 00:00:01,000\nKafak\n"),
    );
    assert!(json(tricky).contains("\\u0007"));
    assert_eq!(canonical_fingerprint(&projection), format!("semantic:sha256-v1:{}", sha256_hex(&expected)));
}

#[test]
fn derived_fingerprint_hashes_the_json_text() {
    let derived = DerivedContractProjection {
        effective_review_status: vec![
            EvidenceEffectiveReviewStatus {
                case_id: "case-1".to_owned(),
                observed_revision_id: "rev:a".to_owned(),
                decision: EvidenceCorrectionDecision::AcceptAlternative { alternative_index: 1 },
            },
            EvidenceEffectiveReviewStatus {
                case_id: "case-2".to_owned(),
                observed_revision_id: "rev:a".to_owned(),
                decision: EvidenceCorrectionDecision::Reject,
            },
        ],
        rejected_candidate_identities: vec!["rejection:ab".to_owned(), "rejection:cd".to_owned()],
        effective_reusable_records: vec![],
        historical_reusable_records: vec![],
        reusable_snapshot_identity: "".to_owned(),
        derived_queue_projection: "queue:rev:a:2".to_owned(),
    };
    let expected = "{\"effective_review_status\":[\
         {\"case_id\":\"case-1\",\"observed_revision_id\":\"rev:a\",\"decision\":{\"accept_alternative\":{\"alternative_index\":1}}},\
         {\"case_id\":\"case-2\",\"observed_revision_id\":\"rev:a\",\"decision\":\"reject\"}],\
         \"rejected_candidate_identities\":[\"rejection:ab\",\"rejection:cd\"],\
         \"effective_reusable_records\":[],\"historical_reusable_records\":[],\
         \"reusable_snapshot_identity\":\"\",\"derived_queue_projection\":\"queue:rev:a:2\"}";
    assert_eq!(derived_fingerprint(&derived), format!("derived:sha256-v1:{}", sha256_hex(expected)));
}
