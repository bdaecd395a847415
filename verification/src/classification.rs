use vstd::prelude::*;

verus! {

/// Whether a field of the persisted state is authority, something rebuilt
/// from authority, or something kept out of the persisted state.
#[derive(Debug, Clone, Copy, PartialEq, Eq, Hash, Structural)]
pub enum FieldClassification {
    CanonicalAuthority,
    CanonicalReferencedPayload,
    CanonicalHistoricalProvenance,
    DerivedRebuildable,
    PresentationOnlyExcluded,
    TransportOnlyExcluded,
    FutureSemanticExcluded,
}

/// One field of the state with its class and, where it is rebuilt, how.
pub struct ClassifiedField {
    pub field_path: &'static str,
    pub classification: FieldClassification,
    pub reconstruction_requirement: Option<&'static str>,
}

/// The mathematical value of a [`ClassifiedField`].
pub struct ClassifiedFieldView {
    pub field_path: Seq<char>,
    pub classification: FieldClassification,
    pub reconstruction_requirement: Option<Seq<char>>,
}

impl View for ClassifiedField {
    type V = ClassifiedFieldView;

    open spec fn view(&self) -> ClassifiedFieldView {
        ClassifiedFieldView {
            field_path: self.field_path@,
            classification: self.classification,
            reconstruction_requirement: match self.reconstruction_requirement {
                Some(t) => Some(t@),
                None => None,
            },
        }
    }
}

impl Clone for ClassifiedField {
    fn clone(&self) -> (r: Self)
        ensures
            r@ == self@,
    {
        ClassifiedField {
            field_path: self.field_path,
            classification: self.classification,
            reconstruction_requirement: self.reconstruction_requirement,
        }
    }
}

/// The classification of every field of the fixture state, in declared order.
pub open spec fn field_registry_spec() -> Seq<ClassifiedFieldView> {
    seq![
        ClassifiedFieldView { field_path: "session_id"@, classification: FieldClassification::CanonicalAuthority, reconstruction_requirement: None },
        ClassifiedFieldView { field_path: "duplicated_from_session_id"@, classification: FieldClassification::CanonicalHistoricalProvenance, reconstruction_requirement: None },
        ClassifiedFieldView { field_path: "session_authority"@, classification: FieldClassification::CanonicalAuthority, reconstruction_requirement: None },
        ClassifiedFieldView { field_path: "material_use_declaration"@, classification: FieldClassification::CanonicalAuthority, reconstruction_requirement: None },
        ClassifiedFieldView { field_path: "source_revisions"@, classification: FieldClassification::CanonicalReferencedPayload, reconstruction_requirement: None },
        ClassifiedFieldView { field_path: "session_terms_identity"@, classification: FieldClassification::CanonicalAuthority, reconstruction_requirement: None },
        ClassifiedFieldView { field_path: "analysis_snapshots"@, classification: FieldClassification::CanonicalAuthority, reconstruction_requirement: None },
        ClassifiedFieldView { field_path: "review_cases"@, classification: FieldClassification::CanonicalAuthority, reconstruction_requirement: None },
        ClassifiedFieldView { field_path: "review_ledger_events"@, classification: FieldClassification::CanonicalAuthority, reconstruction_requirement: None },
        ClassifiedFieldView { field_path: "effective_review_status"@, classification: FieldClassification::DerivedRebuildable, reconstruction_requirement: Some("Fold append-only ReviewLedger events with last-decision-wins semantics."@) },
        ClassifiedFieldView { field_path: "project_scope.stable_id"@, classification: FieldClassification::CanonicalAuthority, reconstruction_requirement: None },
        ClassifiedFieldView { field_path: "project_scope.display_name"@, classification: FieldClassification::DerivedRebuildable, reconstruction_requirement: Some("Mutable non-semantic display label; excluded from canonical fingerprint."@) },
        ClassifiedFieldView { field_path: "reuse_governance_events"@, classification: FieldClassification::CanonicalAuthority, reconstruction_requirement: None },
        ClassifiedFieldView { field_path: "rejected_candidate_identities"@, classification: FieldClassification::DerivedRebuildable, reconstruction_requirement: Some("Deterministic fold of PromotionCandidateRejected governance events."@) },
        ClassifiedFieldView { field_path: "effective_reusable_records"@, classification: FieldClassification::DerivedRebuildable, reconstruction_requirement: Some("Deterministic fold of reuse-governance history against review ledger and canonical run."@) },
        ClassifiedFieldView { field_path: "historical_reusable_records"@, classification: FieldClassification::DerivedRebuildable, reconstruction_requirement: Some("Folded governance history excluding active records."@) },
        ClassifiedFieldView { field_path: "reusable_snapshot_identity"@, classification: FieldClassification::DerivedRebuildable, reconstruction_requirement: Some("Derived from project scope, governance boundary, and active record provenance per MD-018."@) },
        ClassifiedFieldView { field_path: "durable_command_tokens"@, classification: FieldClassification::CanonicalHistoricalProvenance, reconstruction_requirement: Some("Evidence-only durable acknowledgement boundary and writer token; not production session authority."@) },
        ClassifiedFieldView { field_path: "durable_command_tokens.evidence_writer_token"@, classification: FieldClassification::CanonicalHistoricalProvenance, reconstruction_requirement: Some("Evidence-only concurrency token; excluded from production authority semantics."@) },
        ClassifiedFieldView { field_path: "reuse_enabled_analysis_binding"@, classification: FieldClassification::CanonicalHistoricalProvenance, reconstruction_requirement: Some("Records that a specific reuse-enabled analysis executed against a specific immutable reusable-influence snapshot and governance boundary at that historical time."@) },
        ClassifiedFieldView { field_path: "analysis_snapshots.typed_inputs"@, classification: FieldClassification::CanonicalAuthority, reconstruction_requirement: Some("Typed detector set, configuration, algorithm, and session terms inputs required for production-equivalent analysis snapshot hashing."@) },
        ClassifiedFieldView { field_path: "derived_queue_projection"@, classification: FieldClassification::DerivedRebuildable, reconstruction_requirement: Some("Rebuildable review queue projection for evidence-only corruption tests."@) },
        ClassifiedFieldView { field_path: "desktop_selection_state"@, classification: FieldClassification::PresentationOnlyExcluded, reconstruction_requirement: None },
        ClassifiedFieldView { field_path: "application_export_v2"@, classification: FieldClassification::TransportOnlyExcluded, reconstruction_requirement: None },
        ClassifiedFieldView { field_path: "application_export_v3"@, classification: FieldClassification::TransportOnlyExcluded, reconstruction_requirement: None },
        ClassifiedFieldView { field_path: "human_raised_review_cases"@, classification: FieldClassification::FutureSemanticExcluded, reconstruction_requirement: None },
        ClassifiedFieldView { field_path: "asr_observations"@, classification: FieldClassification::FutureSemanticExcluded, reconstruction_requirement: None },
    ]
}

/// The classification of every field of the fixture state, in declared order.
pub fn field_classification_registry() -> (r: Vec<ClassifiedField>)
    ensures
        r@.map_values(|f: ClassifiedField| f@) == field_registry_spec(),
{
    let mut v: Vec<ClassifiedField> = Vec::new();
    v.push(ClassifiedField { field_path: "session_id", classification: FieldClassification::CanonicalAuthority, reconstruction_requirement: None });
    v.push(ClassifiedField { field_path: "duplicated_from_session_id", classification: FieldClassification::CanonicalHistoricalProvenance, reconstruction_requirement: None });
    v.push(ClassifiedField { field_path: "session_authority", classification: FieldClassification::CanonicalAuthority, reconstruction_requirement: None });
    v.push(ClassifiedField { field_path: "material_use_declaration", classification: FieldClassification::CanonicalAuthority, reconstruction_requirement: None });
    v.push(ClassifiedField { field_path: "source_revisions", classification: FieldClassification::CanonicalReferencedPayload, reconstruction_requirement: None });
    v.push(ClassifiedField { field_path: "session_terms_identity", classification: FieldClassification::CanonicalAuthority, reconstruction_requirement: None });
    v.push(ClassifiedField { field_path: "analysis_snapshots", classification: FieldClassification::CanonicalAuthority, reconstruction_requirement: None });
    v.push(ClassifiedField { field_path: "review_cases", classification: FieldClassification::CanonicalAuthority, reconstruction_requirement: None });
    v.push(ClassifiedField { field_path: "review_ledger_events", classification: FieldClassification::CanonicalAuthority, reconstruction_requirement: None });
    v.push(ClassifiedField { field_path: "effective_review_status", classification: FieldClassification::DerivedRebuildable, reconstruction_requirement: Some("Fold append-only ReviewLedger events with last-decision-wins semantics.") });
    v.push(ClassifiedField { field_path: "project_scope.stable_id", classification: FieldClassification::CanonicalAuthority, reconstruction_requirement: None });
    v.push(ClassifiedField { field_path: "project_scope.display_name", classification: FieldClassification::DerivedRebuildable, reconstruction_requirement: Some("Mutable non-semantic display label; excluded from canonical fingerprint.") });
    v.push(ClassifiedField { field_path: "reuse_governance_events", classification: FieldClassification::CanonicalAuthority, reconstruction_requirement: None });
    v.push(ClassifiedField { field_path: "rejected_candidate_identities", classification: FieldClassification::DerivedRebuildable, reconstruction_requirement: Some("Deterministic fold of PromotionCandidateRejected governance events.") });
    v.push(ClassifiedField { field_path: "effective_reusable_records", classification: FieldClassification::DerivedRebuildable, reconstruction_requirement: Some("Deterministic fold of reuse-governance history against review ledger and canonical run.") });
    v.push(ClassifiedField { field_path: "historical_reusable_records", classification: FieldClassification::DerivedRebuildable, reconstruction_requirement: Some("Folded governance history excluding active records.") });
    v.push(ClassifiedField { field_path: "reusable_snapshot_identity", classification: FieldClassification::DerivedRebuildable, reconstruction_requirement: Some("Derived from project scope, governance boundary, and active record provenance per MD-018.") });
    v.push(ClassifiedField { field_path: "durable_command_tokens", classification: FieldClassification::CanonicalHistoricalProvenance, reconstruction_requirement: Some("Evidence-only durable acknowledgement boundary and writer token; not production session authority.") });
    v.push(ClassifiedField { field_path: "durable_command_tokens.evidence_writer_token", classification: FieldClassification::CanonicalHistoricalProvenance, reconstruction_requirement: Some("Evidence-only concurrency token; excluded from production authority semantics.") });
    v.push(ClassifiedField { field_path: "reuse_enabled_analysis_binding", classification: FieldClassification::CanonicalHistoricalProvenance, reconstruction_requirement: Some("Records that a specific reuse-enabled analysis executed against a specific immutable reusable-influence snapshot and governance boundary at that historical time.") });
    v.push(ClassifiedField { field_path: "analysis_snapshots.typed_inputs", classification: FieldClassification::CanonicalAuthority, reconstruction_requirement: Some("Typed detector set, configuration, algorithm, and session terms inputs required for production-equivalent analysis snapshot hashing.") });
    v.push(ClassifiedField { field_path: "derived_queue_projection", classification: FieldClassification::DerivedRebuildable, reconstruction_requirement: Some("Rebuildable review queue projection for evidence-only corruption tests.") });
    v.push(ClassifiedField { field_path: "desktop_selection_state", classification: FieldClassification::PresentationOnlyExcluded, reconstruction_requirement: None });
    v.push(ClassifiedField { field_path: "application_export_v2", classification: FieldClassification::TransportOnlyExcluded, reconstruction_requirement: None });
    v.push(ClassifiedField { field_path: "application_export_v3", classification: FieldClassification::TransportOnlyExcluded, reconstruction_requirement: None });
    v.push(ClassifiedField { field_path: "human_raised_review_cases", classification: FieldClassification::FutureSemanticExcluded, reconstruction_requirement: None });
    v.push(ClassifiedField { field_path: "asr_observations", classification: FieldClassification::FutureSemanticExcluded, reconstruction_requirement: None });
    proof {
        assert(v@.map_values(|f: ClassifiedField| f@) =~= field_registry_spec());
    }
    v
}

/// The classes that hold authority.
pub open spec fn canonical_classes_spec() -> Seq<FieldClassification> {
    seq![
        FieldClassification::CanonicalAuthority,
        FieldClassification::CanonicalReferencedPayload,
        FieldClassification::CanonicalHistoricalProvenance,
    ]
}

/// The classes rebuilt from authority.
pub open spec fn derived_classes_spec() -> Seq<FieldClassification> {
    seq![FieldClassification::DerivedRebuildable]
}

/// The classes kept out of the persisted state.
pub open spec fn excluded_classes_spec() -> Seq<FieldClassification> {
    seq![
        FieldClassification::PresentationOnlyExcluded,
        FieldClassification::TransportOnlyExcluded,
        FieldClassification::FutureSemanticExcluded,
    ]
}

/// The classes that hold authority.
pub fn canonical_classes() -> (r: Vec<FieldClassification>)
    ensures
        r@ == canonical_classes_spec(),
{
    let mut v: Vec<FieldClassification> = Vec::new();
    v.push(FieldClassification::CanonicalAuthority);
    v.push(FieldClassification::CanonicalReferencedPayload);
    v.push(FieldClassification::CanonicalHistoricalProvenance);
    proof {
        assert(v@ =~= canonical_classes_spec());
    }
    v
}

/// The classes rebuilt from authority.
pub fn derived_classes() -> (r: Vec<FieldClassification>)
    ensures
        r@ == derived_classes_spec(),
{
    let mut v: Vec<FieldClassification> = Vec::new();
    v.push(FieldClassification::DerivedRebuildable);
    proof {
        assert(v@ =~= derived_classes_spec());
    }
    v
}

/// The classes kept out of the persisted state.
pub fn excluded_classes() -> (r: Vec<FieldClassification>)
    ensures
        r@ == excluded_classes_spec(),
{
    let mut v: Vec<FieldClassification> = Vec::new();
    v.push(FieldClassification::PresentationOnlyExcluded);
    v.push(FieldClassification::TransportOnlyExcluded);
    v.push(FieldClassification::FutureSemanticExcluded);
    proof {
        assert(v@ =~= excluded_classes_spec());
    }
    v
}

/// Every classification is exactly one of canonical, derived or excluded.
pub proof fn law_classes_partition(c: FieldClassification)
    ensures
        canonical_classes_spec().contains(c) || derived_classes_spec().contains(c) || excluded_classes_spec().contains(c),
        !(canonical_classes_spec().contains(c) && derived_classes_spec().contains(c)),
        !(canonical_classes_spec().contains(c) && excluded_classes_spec().contains(c)),
        !(derived_classes_spec().contains(c) && excluded_classes_spec().contains(c)),
{
    match c {
        FieldClassification::CanonicalAuthority => {
            assert(canonical_classes_spec()[0] == c);
        },
        FieldClassification::CanonicalReferencedPayload => {
            assert(canonical_classes_spec()[1] == c);
        },
        FieldClassification::CanonicalHistoricalProvenance => {
            assert(canonical_classes_spec()[2] == c);
        },
        FieldClassification::DerivedRebuildable => {
            assert(derived_classes_spec()[0] == c);
        },
        FieldClassification::PresentationOnlyExcluded => {
            assert(excluded_classes_spec()[0] == c);
        },
        FieldClassification::TransportOnlyExcluded => {
            assert(excluded_classes_spec()[1] == c);
        },
        FieldClassification::FutureSemanticExcluded => {
            assert(excluded_classes_spec()[2] == c);
        },
    }
}

/// Every rebuilt field of the registry says how it is rebuilt.
pub proof fn law_derived_fields_state_reconstruction()
    ensures
        forall|i: int|
            0 <= i < field_registry_spec().len() && (#[trigger] field_registry_spec()[i]).classification
                == FieldClassification::DerivedRebuildable ==> field_registry_spec()[i].reconstruction_requirement is Some,
{
}

} // verus!
