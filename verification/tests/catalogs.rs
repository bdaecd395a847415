use voxproof_evidence::candidate_equivalence::candidate_equivalence_requirements;
use voxproof_evidence::classification::{canonical_classes, derived_classes, excluded_classes, field_classification_registry, FieldClassification};
use voxproof_evidence::digest::tagged_digest;
use voxproof_evidence::evidence_01c::methodology::methodology_record;
use voxproof_evidence::measurement::{comparative_measurement_contract, validate_measurement_contract};
use voxproof_evidence::production_bridge::{parse_review_case_id, validate_revision_id, validate_session_terms_identity};
use voxproof_evidence::readiness::current_contract_readiness;
use voxproof_evidence::scenario_contract::{
    required_scenario_ids_for_both_candidates, scenario_contract_v3, scenario_contract_v4, validate_scenario_contracts_v3,
    validate_scenario_contracts_v4,
};
use voxproof_evidence::text::decimal;

#[test]
fn scenario_catalogs_validate_against_themselves() {
    let v3 = scenario_contract_v3();
    let v4 = scenario_contract_v4();
    assert!(validate_scenario_contracts_v3(&v3).is_ok());
    assert!(validate_scenario_contracts_v4(&v4).is_ok());
    assert!(v4.len() >= v3.len());
    let mut ids: Vec<&str> = v4.iter().map(|s| s.scenario_id.as_str()).collect();
    let total = ids.len();
    ids.sort();
    ids.dedup();
    assert_eq!(ids.len(), total, "scenario ids are unique");
}

#[test]
fn altered_scenario_catalogs_are_refused() {
    let mut duplicated = scenario_contract_v3();
    let first = duplicated[0].clone();
    duplicated.push(first);
    assert_eq!(
        validate_scenario_contracts_v3(&duplicated),
        Err(format!("duplicate scenario identity: {}", duplicated[0].scenario_id))
    );
    let mut blank = scenario_contract_v4();
    blank[0].preconditions = "  ".to_owned();
    assert_eq!(
        validate_scenario_contracts_v4(&blank),
        Err(format!("scenario {} missing preconditions", blank[0].scenario_id))
    );
    let mut missing = scenario_contract_v4();
    let required = required_scenario_ids_for_both_candidates();
    missing.retain(|s| s.scenario_id != required[0]);
    assert!(validate_scenario_contracts_v4(&missing).is_err());
}

#[test]
fn both_candidates_run_every_required_scenario() {
    let required = required_scenario_ids_for_both_candidates();
    assert!(!required.is_empty());
    let v4 = scenario_contract_v4();
    for id in &required {
        assert!(v4.iter().any(|s| &s.scenario_id == id), "{id}");
    }
}

#[test]
fn field_classes_partition_the_registry() {
    let canonical = canonical_classes();
    let derived = derived_classes();
    let excluded = excluded_classes();
    for c in &canonical {
        assert!(!derived.contains(c) && !excluded.contains(c));
    }
    for c in &derived {
        assert!(!excluded.contains(c));
    }
    assert!(derived.contains(&FieldClassification::DerivedRebuildable));
    let registry = field_classification_registry();
    assert!(!registry.is_empty());
    for field in &registry {
        let class = field.classification;
        assert!(canonical.contains(&class) || derived.contains(&class) || excluded.contains(&class), "{}", field.field_path);
        if class == FieldClassification::DerivedRebuildable {
            assert!(field.reconstruction_requirement.is_some(), "{}", field.field_path);
        }
    }
}

#[test]
fn measurement_contract_is_well_formed() {
    assert!(validate_measurement_contract().is_ok());
    let contract = comparative_measurement_contract();
    assert!(!contract.operations.is_empty());
}

#[test]
fn readiness_is_not_claimed_before_execution() {
    let readiness = current_contract_readiness();
    assert_eq!(readiness.mechanism_comparison_readiness, "not_ready");
    assert_eq!(readiness.mechanism_selection_readiness, "not_ready");
    assert_eq!(readiness.selection_status, "none");
    let _ = candidate_equivalence_requirements();
    let _ = methodology_record();
}

#[test]
fn sha256_digests_are_tagged_lowercase_hex() {
    assert_eq!(
        tagged_digest("sha256", b"abc"),
        "sha256:ba7816bf8f01cfea414140de5dae2223b00361a396177a9cb410ff61f20015ad"
    );
    assert_eq!(
        tagged_digest("rev:sha256-v1", b""),
        "rev:sha256-v1:e3b0c44298fc1c149afbf4c8996fb92427ae41e4649b934ca495991b7852b855"
    );
}

#[test]
fn identities_must_be_canonical() {
    let hex = "e3b0c44298fc1c149afbf4c8996fb92427ae41e4649b934ca495991b7852b855";
    assert!(validate_revision_id(&format!("rev:sha256-v1:{hex}")).is_ok());
    assert!(validate_revision_id(&format!("rev:sha256-v1:{}", &hex[1..])).is_err());
    assert!(validate_revision_id(&format!("rev:sha1:{hex}")).is_err());
    assert!(validate_session_terms_identity(&format!("session-terms:sha256-v1:{hex}")).is_ok());
    assert_eq!(parse_review_case_id("review-case:12").ok(), Some(12));
    assert!(parse_review_case_id("review-case:012").is_err());
    assert!(parse_review_case_id("review-case:").is_err());
    assert!(parse_review_case_id("case:1").is_err());
    assert_eq!(decimal(4096), "4096");
}
