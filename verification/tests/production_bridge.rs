use voxproof_evidence::evidence_01c::measurement_transitions::measurement_transition_states;
use voxproof_evidence::measurement::MeasurementFixtureScale;
use voxproof_evidence::model::{
    EvidenceDetectorIdentity, EvidenceExactReusableCorrection, EvidenceReuseCandidateKey, EvidenceSourceDecisionLocator,
};
use voxproof_evidence::production_bridge::{
    evidence_analysis_snapshot_identity, validate_analysis_snapshot, validate_revision_id, AnalysisConfigurationIdentity,
    ContractRules,
};
use voxproof_evidence::projection::candidate_key_identity_digest;

fn detector(id: &str, version: &str) -> EvidenceDetectorIdentity {
    EvidenceDetectorIdentity { id: id.to_owned(), version: version.to_owned() }
}

fn rules() -> ContractRules {
    ContractRules {
        canonical_configuration: AnalysisConfigurationIdentity {
            detectors: vec![detector("glossary-alias", "1")],
            detector_config_id: "glossary-review".to_owned(),
            detector_config_version: "1".to_owned(),
            algorithm_id: "term-review".to_owned(),
            algorithm_version: "1".to_owned(),
        },
        reuse_enabled_configuration: AnalysisConfigurationIdentity {
            detectors: vec![detector("glossary-alias", "1"), detector("reusable-correction", "1")],
            detector_config_id: "glossary-review-with-reuse".to_owned(),
            detector_config_version: "1".to_owned(),
            algorithm_id: "term-review".to_owned(),
            algorithm_version: "1".to_owned(),
        },
        max_manual_replacement_utf8_bytes: 1024,
    }
}

#[test]
fn noncanonical_uppercase_identity_hex_is_rejected_before_hashing() {
    assert!(validate_revision_id("rev:sha256-v1:ABCDEF0000000000000000000000000000000000000000000000000000000000").is_err());

    let rules = rules();
    let (pending, _) = measurement_transition_states("append_review_decision", MeasurementFixtureScale::Small, &rules)
        .expect("pending session");
    let mut snapshot = pending.analysis_snapshots[0].clone();
    assert!(validate_analysis_snapshot(&snapshot, &rules).is_ok());
    let prefix = "session-terms:sha256-v1:";
    let digest = snapshot.session_terms_identity.strip_prefix(prefix).expect("session terms identity prefix").to_owned();
    snapshot.session_terms_identity = format!("{prefix}{}", digest.to_uppercase());
    snapshot.identity = evidence_analysis_snapshot_identity(&snapshot);

    assert!(validate_analysis_snapshot(&snapshot, &rules).is_err());
}

#[test]
fn candidate_key_digest_is_stable_and_not_debug_based() {
    let key = EvidenceReuseCandidateKey {
        project_scope_stable_id: "proj-a".to_owned(),
        source_locator: EvidenceSourceDecisionLocator {
            source_revision_id: "rev:sha256-v1:abc".to_owned(),
            source_analysis_snapshot_identity: "analysis-snapshot:test".to_owned(),
            source_review_case_id: "review-case:0".to_owned(),
            review_ledger_position: 0,
            decision_digest: "deadbeef".to_owned(),
            effective_at_ledger_length: 1,
        },
        exact_payload: EvidenceExactReusableCorrection {
            observed_text: "Kafak".to_owned(),
            confirmed_replacement: "Kafka".to_owned(),
        },
    };
    let first = candidate_key_identity_digest(&key);
    let second = candidate_key_identity_digest(&key);
    assert_eq!(first, second);
    assert!(first.starts_with("sha256:"));
}
