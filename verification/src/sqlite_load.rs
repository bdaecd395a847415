//! Reconstruction of a SQLite session's authority from its rows: the
//! metadata must name the requested session in this candidate's format, and
//! the rows, assembled and canonicalized, must pass the oracle and be bound by
//! the stored canonical fingerprint.
use vstd::prelude::*;
use crate::derivation::{finalize_derived_fields, finalized_view, TranscriptReading, TranscriptReadingView};
use crate::model::{
    canonical_projection_view, normalize_view, opt_duplicate, opt_view, vec_view, CurrentContractState,
    CurrentContractStateView, EvidenceAnalysisSnapshot, EvidenceAnalysisSnapshotView, EvidenceDurableCommandTokens,
    EvidenceDurableCommandTokensView, EvidenceProjectScope, EvidenceProjectScopeView, EvidenceReuseEnabledAnalysisBinding,
    EvidenceReuseEnabledAnalysisBindingView, EvidenceReuseGovernanceEvent, EvidenceReuseGovernanceEventView,
    EvidenceReviewCase, EvidenceReviewCaseView, EvidenceReviewLedgerEvent, EvidenceReviewLedgerEventView,
    EvidenceSourceRevision, EvidenceSourceRevisionView,
};
use crate::oracle::{canonical_fingerprint_spec, validate_violations_spec, CurrentContractOracle};
use crate::production_bridge::{ContractRules, ContractRulesView};
use crate::sqlite_authority::{sqlite_error, SqliteAuthorityError, SqliteAuthorityErrorView, SQLITE_AUTHORITATIVE_FORMAT_VERSION};
use crate::sqlite_rows::{plain_result_view, row_result_view, SessionMetadata, SessionMetadataView};
use crate::text::{concat3, decimal, decimal_spec, str_eq};

verus! {

/// What checking the stored metadata against the requested session finds.
pub open spec fn metadata_check_spec(m: SessionMetadataView, expected_session_id: Seq<char>) -> Result<(), SqliteAuthorityErrorView> {
    if m.session_id != expected_session_id {
        Err(
            sqlite_error(
                "session-identity-mismatch"@,
                "persisted semantic session identity does not match the requested session"@,
            ),
        )
    } else if m.format_version > SQLITE_AUTHORITATIVE_FORMAT_VERSION {
        Err(sqlite_error("unsupported-newer-format"@, "candidate refuses to interpret a newer SQLite-v3 format"@))
    } else if m.format_version != SQLITE_AUTHORITATIVE_FORMAT_VERSION {
        Err(sqlite_error("unsupported-format"@, "candidate refuses to interpret an unsupported SQLite-v3 format"@))
    } else {
        Ok(())
    }
}

/// Checks that the stored metadata names the requested session in this
/// candidate's format.
pub fn validate_session_metadata(metadata: &SessionMetadata, expected_session_id: &str) -> (r: Result<(), SqliteAuthorityError>)
    ensures
        plain_result_view(r) == metadata_check_spec(metadata@, expected_session_id@),
{
    if !str_eq(metadata.session_id.as_str(), expected_session_id) {
        return Err(
            SqliteAuthorityError::new(
                "session-identity-mismatch",
                "persisted semantic session identity does not match the requested session",
            ),
        );
    }
    if metadata.format_version != SQLITE_AUTHORITATIVE_FORMAT_VERSION {
        if metadata.format_version > SQLITE_AUTHORITATIVE_FORMAT_VERSION {
            return Err(
                SqliteAuthorityError::new("unsupported-newer-format", "candidate refuses to interpret a newer SQLite-v3 format"),
            );
        }
        return Err(
            SqliteAuthorityError::new("unsupported-format", "candidate refuses to interpret an unsupported SQLite-v3 format"),
        );
    }
    Ok(())
}

/// The canonical tables of a session, as read.
pub struct CanonicalRows {
    pub source_revisions: Vec<EvidenceSourceRevision>,
    pub analysis_snapshots: Vec<EvidenceAnalysisSnapshot>,
    pub review_cases: Vec<EvidenceReviewCase>,
    pub review_ledger_events: Vec<EvidenceReviewLedgerEvent>,
    pub reuse_governance_events: Vec<EvidenceReuseGovernanceEvent>,
    pub reuse_enabled_analysis_binding: Option<EvidenceReuseEnabledAnalysisBinding>,
}

/// The mathematical value of [`CanonicalRows`].
pub struct CanonicalRowsView {
    pub source_revisions: Seq<EvidenceSourceRevisionView>,
    pub analysis_snapshots: Seq<EvidenceAnalysisSnapshotView>,
    pub review_cases: Seq<EvidenceReviewCaseView>,
    pub review_ledger_events: Seq<EvidenceReviewLedgerEventView>,
    pub reuse_governance_events: Seq<EvidenceReuseGovernanceEventView>,
    pub reuse_enabled_analysis_binding: Option<EvidenceReuseEnabledAnalysisBindingView>,
}

impl View for CanonicalRows {
    type V = CanonicalRowsView;

    open spec fn view(&self) -> CanonicalRowsView {
        CanonicalRowsView {
            source_revisions: vec_view(self.source_revisions@),
            analysis_snapshots: vec_view(self.analysis_snapshots@),
            review_cases: vec_view(self.review_cases@),
            review_ledger_events: vec_view(self.review_ledger_events@),
            reuse_governance_events: vec_view(self.reuse_governance_events@),
            reuse_enabled_analysis_binding: opt_view(self.reuse_enabled_analysis_binding),
        }
    }
}

/// The state the metadata and canonical rows stand for, before derivation:
/// derived fields empty and the project scope's display name left out, since
/// it is not canonical authority.
pub open spec fn assembled_spec(m: SessionMetadataView, rows: CanonicalRowsView) -> CurrentContractStateView {
    CurrentContractStateView {
        session_id: m.session_id,
        duplicated_from_session_id: m.duplicated_from_session_id,
        session_authority: m.session_authority,
        material_use_declaration: m.material_use_declaration,
        source_revisions: rows.source_revisions,
        session_terms_identity: m.session_terms_identity,
        analysis_snapshots: rows.analysis_snapshots,
        review_cases: rows.review_cases,
        review_ledger_events: rows.review_ledger_events,
        effective_review_status: Seq::empty(),
        project_scope: EvidenceProjectScopeView { stable_id: m.project_scope_stable_id, display_name: Seq::empty() },
        reuse_governance_events: rows.reuse_governance_events,
        effective_reusable_records: Seq::empty(),
        historical_reusable_records: Seq::empty(),
        reusable_snapshot_identity: Seq::empty(),
        reuse_enabled_analysis_binding: rows.reuse_enabled_analysis_binding,
        derived_queue_projection: Seq::empty(),
        durable_command_tokens: EvidenceDurableCommandTokensView {
            review_ledger_head: m.durable_review_ledger_head,
            reuse_governance_head: m.durable_reuse_governance_head,
            active_analysis_snapshot_identity: m.active_analysis_snapshot_identity,
            evidence_writer_token: m.evidence_writer_token,
        },
    }
}

/// The authority reconstructed from the metadata and rows: the assembled state
/// with its derived fields rebuilt and normalized, refused when the oracle
/// finds anything wrong or when the stored fingerprint does not bind it.
pub open spec fn reconstruct_spec(
    m: SessionMetadataView,
    rows: CanonicalRowsView,
    rules: ContractRulesView,
    readings: Seq<TranscriptReadingView>,
) -> Result<CurrentContractStateView, SqliteAuthorityErrorView> {
    let s = normalize_view(finalized_view(assembled_spec(m, rows), rules, readings));
    let violations = validate_violations_spec(s, rules, readings);
    if violations.len() > 0 {
        Err(
            sqlite_error(
                "canonical-corruption"@,
                "relational canonical rows failed current-contract oracle with "@ + decimal_spec(violations.len())
                    + " violation(s)"@,
            ),
        )
    } else if canonical_fingerprint_spec(canonical_projection_view(normalize_view(s))) != m.canonical_fingerprint {
        Err(
            sqlite_error(
                "canonical-fingerprint-mismatch"@,
                "metadata fingerprint does not bind reconstructed canonical authority"@,
            ),
        )
    } else {
        Ok(s)
    }
}

/// Reconstructs a session's authority from its metadata and canonical rows.
pub fn reconstruct_authority(
    metadata: &SessionMetadata,
    rows: CanonicalRows,
    rules: &ContractRules,
    readings: &Vec<TranscriptReading>,
) -> (r: Result<CurrentContractState, SqliteAuthorityError>)
    ensures
        row_result_view(r) == reconstruct_spec(metadata@, rows@, rules@, vec_view(readings@)),
{
    let mut state = CurrentContractState {
        session_id: metadata.session_id.clone(),
        duplicated_from_session_id: opt_duplicate(&metadata.duplicated_from_session_id),
        session_authority: metadata.session_authority.clone(),
        material_use_declaration: metadata.material_use_declaration.clone(),
        source_revisions: rows.source_revisions,
        session_terms_identity: metadata.session_terms_identity.clone(),
        analysis_snapshots: rows.analysis_snapshots,
        review_cases: rows.review_cases,
        review_ledger_events: rows.review_ledger_events,
        effective_review_status: Vec::new(),
        project_scope: EvidenceProjectScope { stable_id: metadata.project_scope_stable_id.clone(), display_name: String::new() },
        reuse_governance_events: rows.reuse_governance_events,
        effective_reusable_records: Vec::new(),
        historical_reusable_records: Vec::new(),
        reusable_snapshot_identity: String::new(),
        reuse_enabled_analysis_binding: rows.reuse_enabled_analysis_binding,
        derived_queue_projection: String::new(),
        durable_command_tokens: EvidenceDurableCommandTokens {
            review_ledger_head: metadata.durable_review_ledger_head,
            reuse_governance_head: metadata.durable_reuse_governance_head,
            active_analysis_snapshot_identity: metadata.active_analysis_snapshot_identity.clone(),
            evidence_writer_token: metadata.evidence_writer_token.clone(),
        },
    };
    proof {
        assert(vec_view(state.effective_review_status@) =~= Seq::empty());
        assert(vec_view(state.effective_reusable_records@) =~= Seq::empty());
        assert(vec_view(state.historical_reusable_records@) =~= Seq::empty());
        assert(state@ =~= assembled_spec(metadata@, rows@));
    }
    finalize_derived_fields(&mut state, rules, readings);
    let state = state.normalize();
    let result = CurrentContractOracle::validate(&state, rules, readings);
    if !result.passed {
        let count = decimal(result.violations.len());
        let message = concat3("relational canonical rows failed current-contract oracle with ", count.as_str(), " violation(s)");
        return Err(SqliteAuthorityError::new("canonical-corruption", message.as_str()));
    }
    if !str_eq(result.canonical_fingerprint.as_str(), metadata.canonical_fingerprint.as_str()) {
        return Err(
            SqliteAuthorityError::new(
                "canonical-fingerprint-mismatch",
                "metadata fingerprint does not bind reconstructed canonical authority",
            ),
        );
    }
    Ok(state)
}

} // verus!
