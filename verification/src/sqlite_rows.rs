//! The relational rows of the SQLite candidate, as plain values, and the
//! checks that turn them back into authority: integer conversions, required
//! columns, governance events, session metadata, the transition log and
//! writer ownership.
use vstd::prelude::*;
use crate::model::{
    EvidenceExactReusableCorrection, EvidenceExactReusableCorrectionView, EvidenceGovernanceActor,
    EvidenceGovernanceActorView, EvidenceMaterialUseDeclaration, EvidenceMaterialUseDeclarationView,
    EvidenceReuseCandidateKey, EvidenceReuseCandidateKeyView, EvidenceReuseGovernanceEvent,
    EvidenceReuseGovernanceEventView, EvidenceSessionAuthority, EvidenceSessionAuthorityView,
    EvidenceSourceDecisionLocator, EvidenceSourceDecisionLocatorView,
};
use crate::sqlite_authority::{
    sqlite_error, CurrentContractPreconditions, CurrentContractPreconditionsView, SqliteAuthorityError,
    SqliteAuthorityErrorView,
};
use crate::text::{concat3, str_eq};

verus! {

/// An optional text, as a value.
pub open spec fn opt_text_view(o: Option<String>) -> Option<Seq<char>> {
    match o {
        Some(t) => Some(t@),
        None => None,
    }
}

/// A result, as a value.
pub open spec fn row_result_view<T: View>(r: Result<T, SqliteAuthorityError>) -> Result<T::V, SqliteAuthorityErrorView> {
    match r {
        Ok(x) => Ok(x@),
        Err(e) => Err(e@),
    }
}

/// A plain result, as a value.
pub open spec fn plain_result_view<T>(r: Result<T, SqliteAuthorityError>) -> Result<T, SqliteAuthorityErrorView> {
    match r {
        Ok(x) => Ok(x),
        Err(e) => Err(e@),
    }
}

/// A count or index as an SQLite integer.
pub open spec fn usize_to_i64_spec(v: usize) -> Result<i64, SqliteAuthorityErrorView> {
    if v <= i64::MAX {
        Ok(v as i64)
    } else {
        Err(sqlite_error("integer-range"@, "usize does not fit SQLite integer"@))
    }
}

/// Converts a count or index to an SQLite integer.
pub fn usize_to_i64(value: usize) -> (r: Result<i64, SqliteAuthorityError>)
    ensures
        plain_result_view(r) == usize_to_i64_spec(value),
{
    if (value as u64) <= 9223372036854775807u64 {
        Ok(value as i64)
    } else {
        Err(SqliteAuthorityError::new("integer-range", "usize does not fit SQLite integer"))
    }
}

/// A stored SQLite integer as a count or index.
pub open spec fn i64_to_usize_spec(v: i64) -> Result<usize, SqliteAuthorityErrorView> {
    if 0 <= v && v <= usize::MAX {
        Ok(v as usize)
    } else {
        Err(sqlite_error("canonical-corruption"@, "SQLite integer cannot be represented as a non-negative usize"@))
    }
}

/// Converts a stored SQLite integer to a count or index.
pub fn i64_to_usize(value: i64) -> (r: Result<usize, SqliteAuthorityError>)
    ensures
        plain_result_view(r) == i64_to_usize_spec(value),
{
    if value >= 0 && (value as u64) <= (usize::MAX as u64) {
        Ok(value as usize)
    } else {
        Err(SqliteAuthorityError::new("canonical-corruption", "SQLite integer cannot be represented as a non-negative usize"))
    }
}

/// A stored SQLite generation as a `u64`.
pub open spec fn i64_to_u64_spec(v: i64) -> Result<u64, SqliteAuthorityErrorView> {
    if 0 <= v {
        Ok(v as u64)
    } else {
        Err(sqlite_error("canonical-corruption"@, "SQLite generation cannot be represented as a non-negative u64"@))
    }
}

/// Converts a stored SQLite generation to a `u64`.
pub fn i64_to_u64(value: i64) -> (r: Result<u64, SqliteAuthorityError>)
    ensures
        plain_result_view(r) == i64_to_u64_spec(value),
{
    if value >= 0 {
        Ok(value as u64)
    } else {
        Err(SqliteAuthorityError::new("canonical-corruption", "SQLite generation cannot be represented as a non-negative u64"))
    }
}

/// A stored SQLite format version as a `u32`.
pub open spec fn i64_to_u32_spec(v: i64) -> Result<u32, SqliteAuthorityErrorView> {
    if 0 <= v && v <= u32::MAX {
        Ok(v as u32)
    } else {
        Err(sqlite_error("canonical-corruption"@, "SQLite format cannot be represented as a u32"@))
    }
}

/// Converts a stored SQLite format version to a `u32`.
pub fn i64_to_u32(value: i64) -> (r: Result<u32, SqliteAuthorityError>)
    ensures
        plain_result_view(r) == i64_to_u32_spec(value),
{
    if value >= 0 && value <= 4294967295i64 {
        Ok(value as u32)
    } else {
        Err(SqliteAuthorityError::new("canonical-corruption", "SQLite format cannot be represented as a u32"))
    }
}

/// A generation as an SQLite integer.
pub open spec fn u64_to_i64_spec(v: u64) -> Result<i64, SqliteAuthorityErrorView> {
    if v <= i64::MAX {
        Ok(v as i64)
    } else {
        Err(sqlite_error("integer-range"@, "u64 does not fit SQLite integer"@))
    }
}

/// Converts a generation to an SQLite integer.
pub fn u64_to_i64(value: u64) -> (r: Result<i64, SqliteAuthorityError>)
    ensures
        plain_result_view(r) == u64_to_i64_spec(value),
{
    if value <= 9223372036854775807u64 {
        Ok(value as i64)
    } else {
        Err(SqliteAuthorityError::new("integer-range", "u64 does not fit SQLite integer"))
    }
}

/// A generation as a count on this platform.
pub open spec fn u64_to_usize_spec(v: u64) -> Result<usize, SqliteAuthorityErrorView> {
    if v <= usize::MAX {
        Ok(v as usize)
    } else {
        Err(sqlite_error("integer-conversion-failed"@, "u64 value does not fit platform usize"@))
    }
}

/// Converts a generation to a count on this platform.
pub fn u64_to_usize(value: u64) -> (r: Result<usize, SqliteAuthorityError>)
    ensures
        plain_result_view(r) == u64_to_usize_spec(value),
{
    if value <= (usize::MAX as u64) {
        Ok(value as usize)
    } else {
        Err(SqliteAuthorityError::new("integer-conversion-failed", "u64 value does not fit platform usize"))
    }
}

/// The error of a missing required column.
pub open spec fn missing_column(field: Seq<char>) -> SqliteAuthorityErrorView {
    sqlite_error("canonical-corruption"@, "missing required "@ + field + " in relational authority"@)
}

/// A required text column.
pub open spec fn required_text_spec(value: Option<Seq<char>>, field: Seq<char>) -> Result<Seq<char>, SqliteAuthorityErrorView> {
    match value {
        Some(t) => Ok(t),
        None => Err(missing_column(field)),
    }
}

/// The value of a required text column.
pub fn required_text(value: Option<String>, field: &'static str) -> (r: Result<String, SqliteAuthorityError>)
    ensures
        row_result_view(r) == required_text_spec(opt_text_view(value), field@),
{
    match value {
        Some(t) => Ok(t),
        None => {
            let message = concat3("missing required ", field, " in relational authority");
            Err(SqliteAuthorityError::new("canonical-corruption", message.as_str()))
        },
    }
}

/// A required integer column.
pub open spec fn required_i64_spec(value: Option<i64>, field: Seq<char>) -> Result<i64, SqliteAuthorityErrorView> {
    match value {
        Some(v) => Ok(v),
        None => Err(missing_column(field)),
    }
}

/// The value of a required integer column.
pub fn required_i64(value: Option<i64>, field: &'static str) -> (r: Result<i64, SqliteAuthorityError>)
    ensures
        plain_result_view(r) == required_i64_spec(value, field@),
{
    match value {
        Some(v) => Ok(v),
        None => {
            let message = concat3("missing required ", field, " in relational authority");
            Err(SqliteAuthorityError::new("canonical-corruption", message.as_str()))
        },
    }
}

/// A required count or index column.
pub open spec fn required_usize_spec(value: Option<i64>, field: Seq<char>) -> Result<usize, SqliteAuthorityErrorView> {
    match required_i64_spec(value, field) {
        Err(e) => Err(e),
        Ok(v) => i64_to_usize_spec(v),
    }
}

fn required_usize(value: Option<i64>, field: &'static str) -> (r: Result<usize, SqliteAuthorityError>)
    ensures
        plain_result_view(r) == required_usize_spec(value, field@),
{
    let v = required_i64(value, field)?;
    i64_to_usize(v)
}

/// One row of the reuse-governance table: the event's index and kind, and
/// the columns each kind fills (the others are empty).
pub struct GovernanceRow {
    pub event_index: i64,
    pub event_kind: String,
    pub candidate_project_scope_stable_id: Option<String>,
    pub candidate_locator_source_revision_id: Option<String>,
    pub candidate_locator_analysis_snapshot_identity: Option<String>,
    pub candidate_locator_review_case_id: Option<String>,
    pub candidate_locator_ledger_position: Option<i64>,
    pub candidate_locator_decision_digest: Option<String>,
    pub candidate_locator_effective_at_ledger_length: Option<i64>,
    pub candidate_observed_text: Option<String>,
    pub candidate_confirmed_replacement: Option<String>,
    pub promotion_payload_observed_text: Option<String>,
    pub promotion_payload_confirmed_replacement: Option<String>,
    pub promotion_locator_source_revision_id: Option<String>,
    pub promotion_locator_analysis_snapshot_identity: Option<String>,
    pub promotion_locator_review_case_id: Option<String>,
    pub promotion_locator_ledger_position: Option<i64>,
    pub promotion_locator_decision_digest: Option<String>,
    pub promotion_locator_effective_at_ledger_length: Option<i64>,
    pub actor_role_label: Option<String>,
    pub actor_display_label: Option<String>,
    pub promotion_project_scope_stable_id: Option<String>,
    pub record_id: Option<i64>,
    pub predecessor_record_id: Option<i64>,
    pub successor_record_id: Option<i64>,
}

/// The mathematical value of a [`GovernanceRow`].
pub struct GovernanceRowView {
    pub event_index: i64,
    pub event_kind: Seq<char>,
    pub candidate_project_scope_stable_id: Option<Seq<char>>,
    pub candidate_locator_source_revision_id: Option<Seq<char>>,
    pub candidate_locator_analysis_snapshot_identity: Option<Seq<char>>,
    pub candidate_locator_review_case_id: Option<Seq<char>>,
    pub candidate_locator_ledger_position: Option<i64>,
    pub candidate_locator_decision_digest: Option<Seq<char>>,
    pub candidate_locator_effective_at_ledger_length: Option<i64>,
    pub candidate_observed_text: Option<Seq<char>>,
    pub candidate_confirmed_replacement: Option<Seq<char>>,
    pub promotion_payload_observed_text: Option<Seq<char>>,
    pub promotion_payload_confirmed_replacement: Option<Seq<char>>,
    pub promotion_locator_source_revision_id: Option<Seq<char>>,
    pub promotion_locator_analysis_snapshot_identity: Option<Seq<char>>,
    pub promotion_locator_review_case_id: Option<Seq<char>>,
    pub promotion_locator_ledger_position: Option<i64>,
    pub promotion_locator_decision_digest: Option<Seq<char>>,
    pub promotion_locator_effective_at_ledger_length: Option<i64>,
    pub actor_role_label: Option<Seq<char>>,
    pub actor_display_label: Option<Seq<char>>,
    pub promotion_project_scope_stable_id: Option<Seq<char>>,
    pub record_id: Option<i64>,
    pub predecessor_record_id: Option<i64>,
    pub successor_record_id: Option<i64>,
}

impl View for GovernanceRow {
    type V = GovernanceRowView;

    open spec fn view(&self) -> GovernanceRowView {
        GovernanceRowView {
            event_index: self.event_index,
            event_kind: self.event_kind@,
            candidate_project_scope_stable_id: opt_text_view(self.candidate_project_scope_stable_id),
            candidate_locator_source_revision_id: opt_text_view(self.candidate_locator_source_revision_id),
            candidate_locator_analysis_snapshot_identity: opt_text_view(self.candidate_locator_analysis_snapshot_identity),
            candidate_locator_review_case_id: opt_text_view(self.candidate_locator_review_case_id),
            candidate_locator_ledger_position: self.candidate_locator_ledger_position,
            candidate_locator_decision_digest: opt_text_view(self.candidate_locator_decision_digest),
            candidate_locator_effective_at_ledger_length: self.candidate_locator_effective_at_ledger_length,
            candidate_observed_text: opt_text_view(self.candidate_observed_text),
            candidate_confirmed_replacement: opt_text_view(self.candidate_confirmed_replacement),
            promotion_payload_observed_text: opt_text_view(self.promotion_payload_observed_text),
            promotion_payload_confirmed_replacement: opt_text_view(self.promotion_payload_confirmed_replacement),
            promotion_locator_source_revision_id: opt_text_view(self.promotion_locator_source_revision_id),
            promotion_locator_analysis_snapshot_identity: opt_text_view(self.promotion_locator_analysis_snapshot_identity),
            promotion_locator_review_case_id: opt_text_view(self.promotion_locator_review_case_id),
            promotion_locator_ledger_position: self.promotion_locator_ledger_position,
            promotion_locator_decision_digest: opt_text_view(self.promotion_locator_decision_digest),
            promotion_locator_effective_at_ledger_length: self.promotion_locator_effective_at_ledger_length,
            actor_role_label: opt_text_view(self.actor_role_label),
            actor_display_label: opt_text_view(self.actor_display_label),
            promotion_project_scope_stable_id: opt_text_view(self.promotion_project_scope_stable_id),
            record_id: self.record_id,
            predecessor_record_id: self.predecessor_record_id,
            successor_record_id: self.successor_record_id,
        }
    }
}

/// A row of the given index and kind with every optional column empty.
pub open spec fn empty_row_spec(event_index: i64, kind: Seq<char>) -> GovernanceRowView {
    GovernanceRowView {
        event_index,
        event_kind: kind,
        candidate_project_scope_stable_id: None,
        candidate_locator_source_revision_id: None,
        candidate_locator_analysis_snapshot_identity: None,
        candidate_locator_review_case_id: None,
        candidate_locator_ledger_position: None,
        candidate_locator_decision_digest: None,
        candidate_locator_effective_at_ledger_length: None,
        candidate_observed_text: None,
        candidate_confirmed_replacement: None,
        promotion_payload_observed_text: None,
        promotion_payload_confirmed_replacement: None,
        promotion_locator_source_revision_id: None,
        promotion_locator_analysis_snapshot_identity: None,
        promotion_locator_review_case_id: None,
        promotion_locator_ledger_position: None,
        promotion_locator_decision_digest: None,
        promotion_locator_effective_at_ledger_length: None,
        actor_role_label: None,
        actor_display_label: None,
        promotion_project_scope_stable_id: None,
        record_id: None,
        predecessor_record_id: None,
        successor_record_id: None,
    }
}

fn empty_row(event_index: i64, kind: &str) -> (r: GovernanceRow)
    ensures
        r@ == empty_row_spec(event_index, kind@),
{
    GovernanceRow {
        event_index,
        event_kind: String::from_str(kind),
        candidate_project_scope_stable_id: None,
        candidate_locator_source_revision_id: None,
        candidate_locator_analysis_snapshot_identity: None,
        candidate_locator_review_case_id: None,
        candidate_locator_ledger_position: None,
        candidate_locator_decision_digest: None,
        candidate_locator_effective_at_ledger_length: None,
        candidate_observed_text: None,
        candidate_confirmed_replacement: None,
        promotion_payload_observed_text: None,
        promotion_payload_confirmed_replacement: None,
        promotion_locator_source_revision_id: None,
        promotion_locator_analysis_snapshot_identity: None,
        promotion_locator_review_case_id: None,
        promotion_locator_ledger_position: None,
        promotion_locator_decision_digest: None,
        promotion_locator_effective_at_ledger_length: None,
        actor_role_label: None,
        actor_display_label: None,
        promotion_project_scope_stable_id: None,
        record_id: None,
        predecessor_record_id: None,
        successor_record_id: None,
    }
}

/// A source decision locator read from its six columns.
pub open spec fn locator_from_values_spec(
    source_revision_id: Option<Seq<char>>,
    source_analysis_snapshot_identity: Option<Seq<char>>,
    source_review_case_id: Option<Seq<char>>,
    review_ledger_position: Option<i64>,
    decision_digest: Option<Seq<char>>,
    effective_at_ledger_length: Option<i64>,
) -> Result<EvidenceSourceDecisionLocatorView, SqliteAuthorityErrorView> {
    match required_text_spec(source_revision_id, "source_revision_id"@) {
        Err(e) => Err(e),
        Ok(a) => match required_text_spec(source_analysis_snapshot_identity, "source_analysis_snapshot_identity"@) {
            Err(e) => Err(e),
            Ok(b) => match required_text_spec(source_review_case_id, "source_review_case_id"@) {
                Err(e) => Err(e),
                Ok(c) => match required_usize_spec(review_ledger_position, "review_ledger_position"@) {
                    Err(e) => Err(e),
                    Ok(d) => match required_text_spec(decision_digest, "decision_digest"@) {
                        Err(e) => Err(e),
                        Ok(f) => match required_usize_spec(effective_at_ledger_length, "effective_at_ledger_length"@) {
                            Err(e) => Err(e),
                            Ok(g) => Ok(
                                EvidenceSourceDecisionLocatorView {
                                    source_revision_id: a,
                                    source_analysis_snapshot_identity: b,
                                    source_review_case_id: c,
                                    review_ledger_position: d,
                                    decision_digest: f,
                                    effective_at_ledger_length: g,
                                },
                            ),
                        },
                    },
                },
            },
        },
    }
}

/// Reads a source decision locator from its six columns.
pub fn locator_from_values(
    source_revision_id: Option<String>,
    source_analysis_snapshot_identity: Option<String>,
    source_review_case_id: Option<String>,
    review_ledger_position: Option<i64>,
    decision_digest: Option<String>,
    effective_at_ledger_length: Option<i64>,
) -> (r: Result<EvidenceSourceDecisionLocator, SqliteAuthorityError>)
    ensures
        row_result_view(r) == locator_from_values_spec(
            opt_text_view(source_revision_id),
            opt_text_view(source_analysis_snapshot_identity),
            opt_text_view(source_review_case_id),
            review_ledger_position,
            opt_text_view(decision_digest),
            effective_at_ledger_length,
        ),
{
    let a = required_text(source_revision_id, "source_revision_id")?;
    let b = required_text(source_analysis_snapshot_identity, "source_analysis_snapshot_identity")?;
    let c = required_text(source_review_case_id, "source_review_case_id")?;
    let d = required_usize(review_ledger_position, "review_ledger_position")?;
    let f = required_text(decision_digest, "decision_digest")?;
    let g = required_usize(effective_at_ledger_length, "effective_at_ledger_length")?;
    Ok(
        EvidenceSourceDecisionLocator {
            source_revision_id: a,
            source_analysis_snapshot_identity: b,
            source_review_case_id: c,
            review_ledger_position: d,
            decision_digest: f,
            effective_at_ledger_length: g,
        },
    )
}

/// The candidate key a row stores.
pub open spec fn candidate_key_from_row_spec(row: GovernanceRowView) -> Result<EvidenceReuseCandidateKeyView, SqliteAuthorityErrorView> {
    match required_text_spec(row.candidate_project_scope_stable_id, "candidate_project_scope_stable_id"@) {
        Err(e) => Err(e),
        Ok(scope) => match locator_from_values_spec(
            row.candidate_locator_source_revision_id,
            row.candidate_locator_analysis_snapshot_identity,
            row.candidate_locator_review_case_id,
            row.candidate_locator_ledger_position,
            row.candidate_locator_decision_digest,
            row.candidate_locator_effective_at_ledger_length,
        ) {
            Err(e) => Err(e),
            Ok(locator) => match required_text_spec(row.candidate_observed_text, "candidate_observed_text"@) {
                Err(e) => Err(e),
                Ok(observed) => match required_text_spec(row.candidate_confirmed_replacement, "candidate_confirmed_replacement"@) {
                    Err(e) => Err(e),
                    Ok(confirmed) => Ok(
                        EvidenceReuseCandidateKeyView {
                            project_scope_stable_id: scope,
                            source_locator: locator,
                            exact_payload: EvidenceExactReusableCorrectionView {
                                observed_text: observed,
                                confirmed_replacement: confirmed,
                            },
                        },
                    ),
                },
            },
        },
    }
}

fn candidate_key_from_row(row: &GovernanceRow) -> (r: Result<EvidenceReuseCandidateKey, SqliteAuthorityError>)
    ensures
        row_result_view(r) == candidate_key_from_row_spec(row@),
{
    let scope = required_text(row.candidate_project_scope_stable_id.clone(), "candidate_project_scope_stable_id")?;
    let locator = locator_from_values(
        row.candidate_locator_source_revision_id.clone(),
        row.candidate_locator_analysis_snapshot_identity.clone(),
        row.candidate_locator_review_case_id.clone(),
        row.candidate_locator_ledger_position,
        row.candidate_locator_decision_digest.clone(),
        row.candidate_locator_effective_at_ledger_length,
    )?;
    let observed = required_text(row.candidate_observed_text.clone(), "candidate_observed_text")?;
    let confirmed = required_text(row.candidate_confirmed_replacement.clone(), "candidate_confirmed_replacement")?;
    Ok(
        EvidenceReuseCandidateKey {
            project_scope_stable_id: scope,
            source_locator: locator,
            exact_payload: EvidenceExactReusableCorrection { observed_text: observed, confirmed_replacement: confirmed },
        },
    )
}

/// The promotion locator a row stores.
pub open spec fn promotion_locator_from_row_spec(row: GovernanceRowView) -> Result<EvidenceSourceDecisionLocatorView, SqliteAuthorityErrorView> {
    locator_from_values_spec(
        row.promotion_locator_source_revision_id,
        row.promotion_locator_analysis_snapshot_identity,
        row.promotion_locator_review_case_id,
        row.promotion_locator_ledger_position,
        row.promotion_locator_decision_digest,
        row.promotion_locator_effective_at_ledger_length,
    )
}

/// The governance actor a row stores.
pub open spec fn actor_from_row_spec(row: GovernanceRowView) -> Result<EvidenceGovernanceActorView, SqliteAuthorityErrorView> {
    match required_text_spec(row.actor_role_label, "actor_role_label"@) {
        Err(e) => Err(e),
        Ok(role) => match required_text_spec(row.actor_display_label, "actor_display_label"@) {
            Err(e) => Err(e),
            Ok(display) => Ok(EvidenceGovernanceActorView { role_label: role, display_label: display }),
        },
    }
}

fn actor_from_row(row: &GovernanceRow) -> (r: Result<EvidenceGovernanceActor, SqliteAuthorityError>)
    ensures
        row_result_view(r) == actor_from_row_spec(row@),
{
    let role = required_text(row.actor_role_label.clone(), "actor_role_label")?;
    let display = required_text(row.actor_display_label.clone(), "actor_display_label")?;
    Ok(EvidenceGovernanceActor { role_label: role, display_label: display })
}

/// The governance event a row stores: its kind selects the columns read, in
/// order, and the first missing or out-of-range column is the error.
pub open spec fn governance_event_from_row_spec(row: GovernanceRowView) -> Result<EvidenceReuseGovernanceEventView, SqliteAuthorityErrorView> {
    match i64_to_usize_spec(row.event_index) {
        Err(e) => Err(e),
        Ok(event_index) => if row.event_kind == "promotion_candidate_rejected"@ {
            match candidate_key_from_row_spec(row) {
                Err(e) => Err(e),
                Ok(key) => match actor_from_row_spec(row) {
                    Err(e) => Err(e),
                    Ok(actor) => Ok(
                        EvidenceReuseGovernanceEventView::PromotionCandidateRejected { event_index, candidate_key: key, actor },
                    ),
                },
            }
        } else if row.event_kind == "promotion_accepted"@ {
            match candidate_key_from_row_spec(row) {
                Err(e) => Err(e),
                Ok(key) => match required_text_spec(row.promotion_payload_observed_text, "promotion_payload_observed_text"@) {
                    Err(e) => Err(e),
                    Ok(observed) => match required_text_spec(
                        row.promotion_payload_confirmed_replacement,
                        "promotion_payload_confirmed_replacement"@,
                    ) {
                        Err(e) => Err(e),
                        Ok(confirmed) => match promotion_locator_from_row_spec(row) {
                            Err(e) => Err(e),
                            Ok(locator) => match actor_from_row_spec(row) {
                                Err(e) => Err(e),
                                Ok(actor) => match required_text_spec(
                                    row.promotion_project_scope_stable_id,
                                    "promotion_project_scope_stable_id"@,
                                ) {
                                    Err(e) => Err(e),
                                    Ok(scope) => Ok(
                                        EvidenceReuseGovernanceEventView::PromotionAccepted {
                                            event_index,
                                            candidate_key: key,
                                            payload: EvidenceExactReusableCorrectionView {
                                                observed_text: observed,
                                                confirmed_replacement: confirmed,
                                            },
                                            source_locator: locator,
                                            actor,
                                            project_scope_stable_id: scope,
                                        },
                                    ),
                                },
                            },
                        },
                    },
                },
            }
        } else if row.event_kind == "reusable_influence_revoked"@ {
            match required_usize_spec(row.record_id, "record_id"@) {
                Err(e) => Err(e),
                Ok(record_id) => match actor_from_row_spec(row) {
                    Err(e) => Err(e),
                    Ok(actor) => Ok(EvidenceReuseGovernanceEventView::ReusableInfluenceRevoked { event_index, record_id, actor }),
                },
            }
        } else if row.event_kind == "reusable_influence_superseded"@ {
            match required_usize_spec(row.predecessor_record_id, "predecessor_record_id"@) {
                Err(e) => Err(e),
                Ok(predecessor) => match required_usize_spec(row.successor_record_id, "successor_record_id"@) {
                    Err(e) => Err(e),
                    Ok(successor) => match actor_from_row_spec(row) {
                        Err(e) => Err(e),
                        Ok(actor) => Ok(
                            EvidenceReuseGovernanceEventView::ReusableInfluenceSuperseded {
                                event_index,
                                predecessor_record_id: predecessor,
                                successor_record_id: successor,
                                actor,
                            },
                        ),
                    },
                },
            }
        } else {
            Err(sqlite_error("canonical-corruption"@, "unknown reuse governance event kind"@))
        },
    }
}

/// Reads the governance event a row stores.
pub fn governance_event_from_row(row: &GovernanceRow) -> (r: Result<EvidenceReuseGovernanceEvent, SqliteAuthorityError>)
    ensures
        row_result_view(r) == governance_event_from_row_spec(row@),
{
    let event_index = i64_to_usize(row.event_index)?;
    let kind = row.event_kind.as_str();
    if str_eq(kind, "promotion_candidate_rejected") {
        let key = candidate_key_from_row(row)?;
        let actor = actor_from_row(row)?;
        Ok(EvidenceReuseGovernanceEvent::PromotionCandidateRejected { event_index, candidate_key: key, actor })
    } else if str_eq(kind, "promotion_accepted") {
        let key = candidate_key_from_row(row)?;
        let observed = required_text(row.promotion_payload_observed_text.clone(), "promotion_payload_observed_text")?;
        let confirmed = required_text(
            row.promotion_payload_confirmed_replacement.clone(),
            "promotion_payload_confirmed_replacement",
        )?;
        let locator = locator_from_values(
            row.promotion_locator_source_revision_id.clone(),
            row.promotion_locator_analysis_snapshot_identity.clone(),
            row.promotion_locator_review_case_id.clone(),
            row.promotion_locator_ledger_position,
            row.promotion_locator_decision_digest.clone(),
            row.promotion_locator_effective_at_ledger_length,
        )?;
        let actor = actor_from_row(row)?;
        let scope = required_text(row.promotion_project_scope_stable_id.clone(), "promotion_project_scope_stable_id")?;
        Ok(
            EvidenceReuseGovernanceEvent::PromotionAccepted {
                event_index,
                candidate_key: key,
                payload: EvidenceExactReusableCorrection { observed_text: observed, confirmed_replacement: confirmed },
                source_locator: locator,
                actor,
                project_scope_stable_id: scope,
            },
        )
    } else if str_eq(kind, "reusable_influence_revoked") {
        let record_id = required_usize(row.record_id, "record_id")?;
        let actor = actor_from_row(row)?;
        Ok(EvidenceReuseGovernanceEvent::ReusableInfluenceRevoked { event_index, record_id, actor })
    } else if str_eq(kind, "reusable_influence_superseded") {
        let predecessor = required_usize(row.predecessor_record_id, "predecessor_record_id")?;
        let successor = required_usize(row.successor_record_id, "successor_record_id")?;
        let actor = actor_from_row(row)?;
        Ok(
            EvidenceReuseGovernanceEvent::ReusableInfluenceSuperseded {
                event_index,
                predecessor_record_id: predecessor,
                successor_record_id: successor,
                actor,
            },
        )
    } else {
        Err(SqliteAuthorityError::new("canonical-corruption", "unknown reuse governance event kind"))
    }
}


/// The candidate-key and locator columns of a row.
pub open spec fn with_candidate_key_spec(row: GovernanceRowView, k: EvidenceReuseCandidateKeyView) -> GovernanceRowView {
    GovernanceRowView {
        candidate_project_scope_stable_id: Some(k.project_scope_stable_id),
        candidate_locator_source_revision_id: Some(k.source_locator.source_revision_id),
        candidate_locator_analysis_snapshot_identity: Some(k.source_locator.source_analysis_snapshot_identity),
        candidate_locator_review_case_id: Some(k.source_locator.source_review_case_id),
        candidate_locator_ledger_position: Some(k.source_locator.review_ledger_position as i64),
        candidate_locator_decision_digest: Some(k.source_locator.decision_digest),
        candidate_locator_effective_at_ledger_length: Some(k.source_locator.effective_at_ledger_length as i64),
        candidate_observed_text: Some(k.exact_payload.observed_text),
        candidate_confirmed_replacement: Some(k.exact_payload.confirmed_replacement),
        ..row
    }
}

/// The actor columns of a row.
pub open spec fn with_actor_spec(row: GovernanceRowView, a: EvidenceGovernanceActorView) -> GovernanceRowView {
    GovernanceRowView { actor_role_label: Some(a.role_label), actor_display_label: Some(a.display_label), ..row }
}

/// Whether every index and count of a locator fits an SQLite integer.
pub open spec fn locator_fits(l: EvidenceSourceDecisionLocatorView) -> bool {
    l.review_ledger_position <= i64::MAX && l.effective_at_ledger_length <= i64::MAX
}

/// Whether every index and count of an event fits an SQLite integer.
pub open spec fn event_fits(e: EvidenceReuseGovernanceEventView) -> bool {
    match e {
        EvidenceReuseGovernanceEventView::PromotionCandidateRejected { event_index, candidate_key, .. } => event_index
            <= i64::MAX && locator_fits(candidate_key.source_locator),
        EvidenceReuseGovernanceEventView::PromotionAccepted { event_index, candidate_key, source_locator, .. } => event_index
            <= i64::MAX && locator_fits(candidate_key.source_locator) && locator_fits(source_locator),
        EvidenceReuseGovernanceEventView::ReusableInfluenceRevoked { event_index, record_id, .. } => event_index <= i64::MAX
            && record_id <= i64::MAX,
        EvidenceReuseGovernanceEventView::ReusableInfluenceSuperseded {
            event_index,
            predecessor_record_id,
            successor_record_id,
            ..
        } => event_index <= i64::MAX && predecessor_record_id <= i64::MAX && successor_record_id <= i64::MAX,
    }
}

/// The row that stores a governance event: its kind's columns filled, the
/// others empty; refused when an index or count does not fit an SQLite integer.
pub open spec fn governance_storage_row_spec(e: EvidenceReuseGovernanceEventView) -> Result<GovernanceRowView, SqliteAuthorityErrorView> {
    if !event_fits(e) {
        Err(sqlite_error("integer-range"@, "usize does not fit SQLite integer"@))
    } else {
        Ok(
            match e {
                EvidenceReuseGovernanceEventView::PromotionCandidateRejected { event_index, candidate_key, actor } => with_actor_spec(
                    with_candidate_key_spec(empty_row_spec(event_index as i64, "promotion_candidate_rejected"@), candidate_key),
                    actor,
                ),
                EvidenceReuseGovernanceEventView::PromotionAccepted {
                    event_index,
                    candidate_key,
                    payload,
                    source_locator,
                    actor,
                    project_scope_stable_id,
                } => GovernanceRowView {
                    promotion_payload_observed_text: Some(payload.observed_text),
                    promotion_payload_confirmed_replacement: Some(payload.confirmed_replacement),
                    promotion_locator_source_revision_id: Some(source_locator.source_revision_id),
                    promotion_locator_analysis_snapshot_identity: Some(source_locator.source_analysis_snapshot_identity),
                    promotion_locator_review_case_id: Some(source_locator.source_review_case_id),
                    promotion_locator_ledger_position: Some(source_locator.review_ledger_position as i64),
                    promotion_locator_decision_digest: Some(source_locator.decision_digest),
                    promotion_locator_effective_at_ledger_length: Some(source_locator.effective_at_ledger_length as i64),
                    promotion_project_scope_stable_id: Some(project_scope_stable_id),
                    ..with_actor_spec(
                        with_candidate_key_spec(empty_row_spec(event_index as i64, "promotion_accepted"@), candidate_key),
                        actor,
                    )
                },
                EvidenceReuseGovernanceEventView::ReusableInfluenceRevoked { event_index, record_id, actor } => GovernanceRowView {
                    record_id: Some(record_id as i64),
                    ..with_actor_spec(empty_row_spec(event_index as i64, "reusable_influence_revoked"@), actor)
                },
                EvidenceReuseGovernanceEventView::ReusableInfluenceSuperseded {
                    event_index,
                    predecessor_record_id,
                    successor_record_id,
                    actor,
                } => GovernanceRowView {
                    predecessor_record_id: Some(predecessor_record_id as i64),
                    successor_record_id: Some(successor_record_id as i64),
                    ..with_actor_spec(empty_row_spec(event_index as i64, "reusable_influence_superseded"@), actor)
                },
            },
        )
    }
}

fn fill_candidate_key(row: &mut GovernanceRow, k: &EvidenceReuseCandidateKey) -> (r: Result<(), SqliteAuthorityError>)
    ensures
        locator_fits(k@.source_locator) ==> r is Ok && final(row)@ == with_candidate_key_spec(old(row)@, k@),
        !locator_fits(k@.source_locator) ==> r is Err && r->Err_0@ == sqlite_error(
            "integer-range"@,
            "usize does not fit SQLite integer"@,
        ),
{
    let position = usize_to_i64(k.source_locator.review_ledger_position)?;
    let effective = usize_to_i64(k.source_locator.effective_at_ledger_length)?;
    row.candidate_project_scope_stable_id = Some(k.project_scope_stable_id.clone());
    row.candidate_locator_source_revision_id = Some(k.source_locator.source_revision_id.clone());
    row.candidate_locator_analysis_snapshot_identity = Some(k.source_locator.source_analysis_snapshot_identity.clone());
    row.candidate_locator_review_case_id = Some(k.source_locator.source_review_case_id.clone());
    row.candidate_locator_ledger_position = Some(position);
    row.candidate_locator_decision_digest = Some(k.source_locator.decision_digest.clone());
    row.candidate_locator_effective_at_ledger_length = Some(effective);
    row.candidate_observed_text = Some(k.exact_payload.observed_text.clone());
    row.candidate_confirmed_replacement = Some(k.exact_payload.confirmed_replacement.clone());
    Ok(())
}

fn fill_actor(row: &mut GovernanceRow, a: &EvidenceGovernanceActor)
    ensures
        final(row)@ == with_actor_spec(old(row)@, a@),
{
    row.actor_role_label = Some(a.role_label.clone());
    row.actor_display_label = Some(a.display_label.clone());
}

/// The row that stores a governance event.
pub fn governance_storage_row(event: &EvidenceReuseGovernanceEvent) -> (r: Result<GovernanceRow, SqliteAuthorityError>)
    ensures
        row_result_view(r) == governance_storage_row_spec(event@),
{
    match event {
        EvidenceReuseGovernanceEvent::PromotionCandidateRejected { event_index, candidate_key, actor } => {
            let index = usize_to_i64(*event_index)?;
            let mut row = empty_row(index, "promotion_candidate_rejected");
            fill_candidate_key(&mut row, candidate_key)?;
            fill_actor(&mut row, actor);
            Ok(row)
        },
        EvidenceReuseGovernanceEvent::PromotionAccepted {
            event_index,
            candidate_key,
            payload,
            source_locator,
            actor,
            project_scope_stable_id,
        } => {
            let index = usize_to_i64(*event_index)?;
            let mut row = empty_row(index, "promotion_accepted");
            fill_candidate_key(&mut row, candidate_key)?;
            let position = usize_to_i64(source_locator.review_ledger_position)?;
            let effective = usize_to_i64(source_locator.effective_at_ledger_length)?;
            fill_actor(&mut row, actor);
            row.promotion_payload_observed_text = Some(payload.observed_text.clone());
            row.promotion_payload_confirmed_replacement = Some(payload.confirmed_replacement.clone());
            row.promotion_locator_source_revision_id = Some(source_locator.source_revision_id.clone());
            row.promotion_locator_analysis_snapshot_identity = Some(source_locator.source_analysis_snapshot_identity.clone());
            row.promotion_locator_review_case_id = Some(source_locator.source_review_case_id.clone());
            row.promotion_locator_ledger_position = Some(position);
            row.promotion_locator_decision_digest = Some(source_locator.decision_digest.clone());
            row.promotion_locator_effective_at_ledger_length = Some(effective);
            row.promotion_project_scope_stable_id = Some(project_scope_stable_id.clone());
            Ok(row)
        },
        EvidenceReuseGovernanceEvent::ReusableInfluenceRevoked { event_index, record_id, actor } => {
            let index = usize_to_i64(*event_index)?;
            let record = usize_to_i64(*record_id)?;
            let mut row = empty_row(index, "reusable_influence_revoked");
            fill_actor(&mut row, actor);
            row.record_id = Some(record);
            Ok(row)
        },
        EvidenceReuseGovernanceEvent::ReusableInfluenceSuperseded {
            event_index,
            predecessor_record_id,
            successor_record_id,
            actor,
        } => {
            let index = usize_to_i64(*event_index)?;
            let predecessor = usize_to_i64(*predecessor_record_id)?;
            let successor = usize_to_i64(*successor_record_id)?;
            let mut row = empty_row(index, "reusable_influence_superseded");
            fill_actor(&mut row, actor);
            row.predecessor_record_id = Some(predecessor);
            row.successor_record_id = Some(successor);
            Ok(row)
        },
    }
}

proof fn lemma_governance_kinds_distinct()
    ensures
        "promotion_candidate_rejected"@ != "promotion_accepted"@,
        "promotion_candidate_rejected"@ != "reusable_influence_revoked"@,
        "promotion_candidate_rejected"@ != "reusable_influence_superseded"@,
        "promotion_accepted"@ != "reusable_influence_revoked"@,
        "promotion_accepted"@ != "reusable_influence_superseded"@,
        "reusable_influence_revoked"@ != "reusable_influence_superseded"@,
{
    reveal_strlit("promotion_candidate_rejected");
    reveal_strlit("promotion_accepted");
    reveal_strlit("reusable_influence_revoked");
    reveal_strlit("reusable_influence_superseded");
    assert("promotion_candidate_rejected"@[10] != "promotion_accepted"@[10]);
    assert("promotion_candidate_rejected"@[0] != "reusable_influence_revoked"@[0]);
    assert("promotion_candidate_rejected"@[0] != "reusable_influence_superseded"@[0]);
    assert("promotion_accepted"@[0] != "reusable_influence_revoked"@[0]);
    assert("promotion_accepted"@[0] != "reusable_influence_superseded"@[0]);
    assert("reusable_influence_revoked"@[20] != "reusable_influence_superseded"@[20]);
}

/// A governance event survives storage: the row that stores it reads back as
/// the same event, whenever its indices and counts fit SQLite integers.
pub proof fn law_governance_row_round_trip(e: EvidenceReuseGovernanceEventView)
    requires
        event_fits(e),
    ensures
        governance_storage_row_spec(e) matches Ok(row) && governance_event_from_row_spec(row) == Ok::<
            EvidenceReuseGovernanceEventView,
            SqliteAuthorityErrorView,
        >(e),
{
    lemma_governance_kinds_distinct();
}


/// The most rows the candidate keeps in one table.
pub const MAX_ROWS_PER_TABLE: usize = 4096;

/// The most bytes of one stored text or canonical payload.
pub const MAX_TEXT_BYTES: usize = 2097152;

/// The session metadata row, as read from SQLite.
pub struct RawSessionMetadata {
    pub session_id: String,
    pub duplicated_from_session_id: Option<String>,
    pub format_version: i64,
    pub committed_generation: i64,
    pub canonical_fingerprint: String,
    pub session_authority_role_label: String,
    pub session_authority_display_label: String,
    pub material_use_basis: String,
    pub session_terms_identity: String,
    pub project_scope_stable_id: String,
    pub durable_review_ledger_head: i64,
    pub durable_reuse_governance_head: i64,
    pub active_analysis_snapshot_identity: String,
    pub evidence_writer_token: String,
}

/// The session metadata of a SQLite session.
pub struct SessionMetadata {
    pub session_id: String,
    pub duplicated_from_session_id: Option<String>,
    pub format_version: u32,
    pub committed_generation: u64,
    pub canonical_fingerprint: String,
    pub session_authority: EvidenceSessionAuthority,
    pub material_use_declaration: EvidenceMaterialUseDeclaration,
    pub session_terms_identity: String,
    pub project_scope_stable_id: String,
    pub durable_review_ledger_head: usize,
    pub durable_reuse_governance_head: usize,
    pub active_analysis_snapshot_identity: String,
    pub evidence_writer_token: String,
}

/// The mathematical value of a [`SessionMetadata`].
pub struct SessionMetadataView {
    pub session_id: Seq<char>,
    pub duplicated_from_session_id: Option<Seq<char>>,
    pub format_version: u32,
    pub committed_generation: u64,
    pub canonical_fingerprint: Seq<char>,
    pub session_authority: EvidenceSessionAuthorityView,
    pub material_use_declaration: EvidenceMaterialUseDeclarationView,
    pub session_terms_identity: Seq<char>,
    pub project_scope_stable_id: Seq<char>,
    pub durable_review_ledger_head: usize,
    pub durable_reuse_governance_head: usize,
    pub active_analysis_snapshot_identity: Seq<char>,
    pub evidence_writer_token: Seq<char>,
}

impl View for SessionMetadata {
    type V = SessionMetadataView;

    open spec fn view(&self) -> SessionMetadataView {
        SessionMetadataView {
            session_id: self.session_id@,
            duplicated_from_session_id: opt_text_view(self.duplicated_from_session_id),
            format_version: self.format_version,
            committed_generation: self.committed_generation,
            canonical_fingerprint: self.canonical_fingerprint@,
            session_authority: self.session_authority@,
            material_use_declaration: self.material_use_declaration@,
            session_terms_identity: self.session_terms_identity@,
            project_scope_stable_id: self.project_scope_stable_id@,
            durable_review_ledger_head: self.durable_review_ledger_head,
            durable_reuse_governance_head: self.durable_reuse_governance_head,
            active_analysis_snapshot_identity: self.active_analysis_snapshot_identity@,
            evidence_writer_token: self.evidence_writer_token@,
        }
    }
}

/// The session metadata a raw row stands for: its integers converted, in
/// column order, the first out-of-range one being the error.
pub open spec fn session_metadata_spec(
    session_id: Seq<char>,
    duplicated_from_session_id: Option<Seq<char>>,
    format_version: i64,
    committed_generation: i64,
    canonical_fingerprint: Seq<char>,
    role: Seq<char>,
    display: Seq<char>,
    basis: Seq<char>,
    terms: Seq<char>,
    scope: Seq<char>,
    review_head: i64,
    reuse_head: i64,
    active: Seq<char>,
    writer: Seq<char>,
) -> Result<SessionMetadataView, SqliteAuthorityErrorView> {
    match i64_to_u32_spec(format_version) {
        Err(e) => Err(e),
        Ok(fv) => match i64_to_u64_spec(committed_generation) {
            Err(e) => Err(e),
            Ok(generation) => match i64_to_usize_spec(review_head) {
                Err(e) => Err(e),
                Ok(rh) => match i64_to_usize_spec(reuse_head) {
                    Err(e) => Err(e),
                    Ok(uh) => Ok(
                        SessionMetadataView {
                            session_id,
                            duplicated_from_session_id,
                            format_version: fv,
                            committed_generation: generation,
                            canonical_fingerprint,
                            session_authority: EvidenceSessionAuthorityView { role_label: role, display_label: display },
                            material_use_declaration: EvidenceMaterialUseDeclarationView { basis },
                            session_terms_identity: terms,
                            project_scope_stable_id: scope,
                            durable_review_ledger_head: rh,
                            durable_reuse_governance_head: uh,
                            active_analysis_snapshot_identity: active,
                            evidence_writer_token: writer,
                        },
                    ),
                },
            },
        },
    }
}

/// Converts a raw session metadata row.
pub fn session_metadata_from_raw(raw: RawSessionMetadata) -> (r: Result<SessionMetadata, SqliteAuthorityError>)
    ensures
        row_result_view(r) == session_metadata_spec(
            raw.session_id@,
            opt_text_view(raw.duplicated_from_session_id),
            raw.format_version,
            raw.committed_generation,
            raw.canonical_fingerprint@,
            raw.session_authority_role_label@,
            raw.session_authority_display_label@,
            raw.material_use_basis@,
            raw.session_terms_identity@,
            raw.project_scope_stable_id@,
            raw.durable_review_ledger_head,
            raw.durable_reuse_governance_head,
            raw.active_analysis_snapshot_identity@,
            raw.evidence_writer_token@,
        ),
{
    let format_version = i64_to_u32(raw.format_version)?;
    let committed_generation = i64_to_u64(raw.committed_generation)?;
    let review_head = i64_to_usize(raw.durable_review_ledger_head)?;
    let reuse_head = i64_to_usize(raw.durable_reuse_governance_head)?;
    Ok(
        SessionMetadata {
            session_id: raw.session_id,
            duplicated_from_session_id: raw.duplicated_from_session_id,
            format_version,
            committed_generation,
            canonical_fingerprint: raw.canonical_fingerprint,
            session_authority: EvidenceSessionAuthority {
                role_label: raw.session_authority_role_label,
                display_label: raw.session_authority_display_label,
            },
            material_use_declaration: EvidenceMaterialUseDeclaration { basis: raw.material_use_basis },
            session_terms_identity: raw.session_terms_identity,
            project_scope_stable_id: raw.project_scope_stable_id,
            durable_review_ledger_head: review_head,
            durable_reuse_governance_head: reuse_head,
            active_analysis_snapshot_identity: raw.active_analysis_snapshot_identity,
            evidence_writer_token: raw.evidence_writer_token,
        },
    )
}

/// What checking a full-state write's preconditions against the stored
/// metadata finds: the generation first, then each scope head.
pub open spec fn preconditions_check_spec(
    m: SessionMetadataView,
    p: CurrentContractPreconditionsView,
) -> Result<(), SqliteAuthorityErrorView> {
    if m.committed_generation != p.expected_generation {
        Err(sqlite_error("stale-generation-precondition"@, "expected committed generation is stale"@))
    } else if m.durable_review_ledger_head != p.review_ledger_head {
        Err(sqlite_error("stale-review-ledger-precondition"@, "review-ledger head precondition is stale"@))
    } else if m.durable_reuse_governance_head != p.reuse_governance_head {
        Err(sqlite_error("stale-reuse-governance-precondition"@, "reuse-governance head precondition is stale"@))
    } else if m.active_analysis_snapshot_identity != p.active_analysis_snapshot_identity {
        Err(sqlite_error("stale-analysis-selection-precondition"@, "active analysis selection precondition is stale"@))
    } else {
        Ok(())
    }
}

/// Checks a full-state write's preconditions against the stored metadata.
pub fn validate_preconditions(
    metadata: &SessionMetadata,
    preconditions: &CurrentContractPreconditions,
) -> (r: Result<(), SqliteAuthorityError>)
    ensures
        plain_result_view(r) == preconditions_check_spec(metadata@, preconditions@),
{
    if metadata.committed_generation != preconditions.expected_generation {
        return Err(SqliteAuthorityError::new("stale-generation-precondition", "expected committed generation is stale"));
    }
    if metadata.durable_review_ledger_head != preconditions.review_ledger_head {
        return Err(SqliteAuthorityError::new("stale-review-ledger-precondition", "review-ledger head precondition is stale"));
    }
    if metadata.durable_reuse_governance_head != preconditions.reuse_governance_head {
        return Err(
            SqliteAuthorityError::new("stale-reuse-governance-precondition", "reuse-governance head precondition is stale"),
        );
    }
    if !str_eq(metadata.active_analysis_snapshot_identity.as_str(), preconditions.active_analysis_snapshot_identity.as_str()) {
        return Err(
            SqliteAuthorityError::new(
                "stale-analysis-selection-precondition",
                "active analysis selection precondition is stale",
            ),
        );
    }
    Ok(())
}

/// The preconditions a session's metadata grants a writer.
pub open spec fn preconditions_of_metadata(m: SessionMetadataView) -> CurrentContractPreconditionsView {
    CurrentContractPreconditionsView {
        expected_generation: m.committed_generation,
        review_ledger_head: m.durable_review_ledger_head,
        reuse_governance_head: m.durable_reuse_governance_head,
        active_analysis_snapshot_identity: m.active_analysis_snapshot_identity,
    }
}

/// Preconditions read from a session's metadata are accepted by it; any that
/// differ in the generation or a scope head are refused.
pub proof fn law_preconditions_accept_exactly_the_current_authority(
    m: SessionMetadataView,
    p: CurrentContractPreconditionsView,
)
    ensures
        preconditions_check_spec(m, preconditions_of_metadata(m)) is Ok,
        preconditions_check_spec(m, p) is Ok <==> p == preconditions_of_metadata(m),
{
}

/// What replaying the transition log against the metadata finds: generations
/// must run 1, 2, … without a gap, stay within the row bound, and end at the
/// committed generation with the committed fingerprint.
pub open spec fn transitions_prefix_spec(rows: Seq<Result<(i64, Seq<char>), SqliteAuthorityErrorView>>) -> Result<
    (nat, Option<Seq<char>>),
    SqliteAuthorityErrorView,
>
    decreases rows.len(),
{
    if rows.len() == 0 {
        Ok((0, None))
    } else {
        match transitions_prefix_spec(rows.drop_last()) {
            Err(e) => Err(e),
            Ok((count, latest)) => match rows.last() {
                Err(e) => Err(e),
                Ok((generation, fingerprint)) => match i64_to_u64_spec(generation) {
                    Err(e) => Err(e),
                    Ok(g) => if g != count + 1 {
                        Err(sqlite_error("canonical-corruption"@, "authority transition generations are not contiguous"@))
                    } else if count + 1 > MAX_ROWS_PER_TABLE {
                        Err(sqlite_error("row-count-exceeded"@, "authority transition count exceeds the bounded candidate limit"@))
                    } else {
                        Ok((count + 1, Some(fingerprint)))
                    },
                },
            },
        }
    }
}

/// What checking the transition log against the metadata finds.
pub open spec fn transitions_check_spec(
    rows: Seq<Result<(i64, Seq<char>), SqliteAuthorityErrorView>>,
    m: SessionMetadataView,
) -> Result<(), SqliteAuthorityErrorView> {
    match transitions_prefix_spec(rows) {
        Err(e) => Err(e),
        Ok((count, latest)) => match u64_to_usize_spec(m.committed_generation) {
            Err(e) => Err(e),
            Ok(g) => if count != g || latest != Some(m.canonical_fingerprint) {
                Err(sqlite_error("canonical-corruption"@, "transition log does not bind the current relational authority"@))
            } else {
                Ok(())
            },
        },
    }
}

/// A transition-log row, as a value.
pub open spec fn transition_row_view(r: Result<(i64, String), SqliteAuthorityError>) -> Result<(i64, Seq<char>), SqliteAuthorityErrorView> {
    match r {
        Ok((g, f)) => Ok((g, f@)),
        Err(e) => Err(e@),
    }
}

/// The transition-log rows, as values.
pub open spec fn transition_rows_view(rows: Seq<Result<(i64, String), SqliteAuthorityError>>) -> Seq<
    Result<(i64, Seq<char>), SqliteAuthorityErrorView>,
> {
    rows.map_values(|r: Result<(i64, String), SqliteAuthorityError>| transition_row_view(r))
}

/// Checks the transition log, read in generation order (a row that could not
/// be read is its error), against the session metadata.
pub fn validate_authority_transitions(
    rows: Vec<Result<(i64, String), SqliteAuthorityError>>,
    metadata: &SessionMetadata,
) -> (r: Result<(), SqliteAuthorityError>)
    ensures
        plain_result_view(r) == transitions_check_spec(transition_rows_view(rows@), metadata@),
{
    let ghost rv = transition_rows_view(rows@);
    let mut count: usize = 0;
    let mut latest: Option<String> = None;
    let mut i: usize = 0;
    while i < rows.len()
        invariant
            i <= rows.len(),
            rv == transition_rows_view(rows@),
            count <= MAX_ROWS_PER_TABLE,
            transitions_prefix_spec(rv.subrange(0, i as int)) == Ok::<(nat, Option<Seq<char>>), SqliteAuthorityErrorView>(
                (count as nat, opt_text_view(latest)),
            ),
        decreases rows.len() - i,
    {
        proof {
            let sub = rv.subrange(0, i + 1);
            assert(sub.drop_last() =~= rv.subrange(0, i as int));
            assert(sub.last() == rv[i as int]);
        }
        let (generation, fingerprint) = match &rows[i] {
            Ok((g, f)) => (*g, f.clone()),
            Err(e) => {
                proof {
                    lemma_transitions_error_sticks(rv, i + 1);
                }
                return Err(e.clone());
            },
        };
        let g = match i64_to_u64(generation) {
            Ok(g) => g,
            Err(e) => {
                proof {
                    lemma_transitions_error_sticks(rv, i + 1);
                }
                return Err(e);
            },
        };
        if g != (count as u64) + 1 {
            proof {
                lemma_transitions_error_sticks(rv, i + 1);
            }
            return Err(SqliteAuthorityError::new("canonical-corruption", "authority transition generations are not contiguous"));
        }
        if count + 1 > MAX_ROWS_PER_TABLE {
            proof {
                lemma_transitions_error_sticks(rv, i + 1);
            }
            return Err(
                SqliteAuthorityError::new("row-count-exceeded", "authority transition count exceeds the bounded candidate limit"),
            );
        }
        count = count + 1;
        latest = Some(fingerprint);
        i = i + 1;
    }
    proof {
        assert(rv.subrange(0, rows.len() as int) =~= rv);
    }
    let committed = u64_to_usize(metadata.committed_generation)?;
    let binds = match &latest {
        Some(f) => str_eq(f.as_str(), metadata.canonical_fingerprint.as_str()),
        None => false,
    };
    if count != committed || !binds {
        return Err(
            SqliteAuthorityError::new("canonical-corruption", "transition log does not bind the current relational authority"),
        );
    }
    Ok(())
}

proof fn lemma_transitions_error_sticks(rows: Seq<Result<(i64, Seq<char>), SqliteAuthorityErrorView>>, i: int)
    requires
        0 <= i <= rows.len(),
        transitions_prefix_spec(rows.subrange(0, i)) is Err,
    ensures
        transitions_prefix_spec(rows) == transitions_prefix_spec(rows.subrange(0, i)),
    decreases rows.len(),
{
    if i < rows.len() {
        assert(rows.drop_last().subrange(0, i) =~= rows.subrange(0, i));
        lemma_transitions_error_sticks(rows.drop_last(), i);
    } else {
        assert(rows.subrange(0, i) =~= rows);
    }
}

/// The writer ownership row: who holds the lease, in which epoch, and until when.
pub struct WriterOwnership {
    pub token: Option<String>,
    pub owner_epoch: i64,
    pub lease_duration_ms: i64,
    pub lease_expires_at_unix_ms: i64,
}

/// The mathematical value of a [`WriterOwnership`].
pub struct WriterOwnershipView {
    pub token: Option<Seq<char>>,
    pub owner_epoch: i64,
    pub lease_duration_ms: i64,
    pub lease_expires_at_unix_ms: i64,
}

impl View for WriterOwnership {
    type V = WriterOwnershipView;

    open spec fn view(&self) -> WriterOwnershipView {
        WriterOwnershipView {
            token: opt_text_view(self.token),
            owner_epoch: self.owner_epoch,
            lease_duration_ms: self.lease_duration_ms,
            lease_expires_at_unix_ms: self.lease_expires_at_unix_ms,
        }
    }
}

/// What acquiring writer ownership at `now` decides: refused while another
/// writer's lease is live; otherwise the epoch advances past a previous holder
/// and the new lease runs for the stored duration.
pub open spec fn acquire_spec(o: WriterOwnershipView, now: i64) -> Result<(i64, i64), SqliteAuthorityErrorView> {
    if o.token is Some && o.lease_expires_at_unix_ms > now {
        Err(sqlite_error("writer-already-open"@, "SQLite-v3 candidate permits only one live authoritative writer"@))
    } else if o.token is Some && o.owner_epoch == i64::MAX {
        Err(sqlite_error("writer-epoch-overflow"@, "writer epoch overflow"@))
    } else if now + o.lease_duration_ms > i64::MAX || now + o.lease_duration_ms < i64::MIN {
        Err(sqlite_error("lease-overflow"@, "writer lease overflow"@))
    } else {
        Ok(
            (
                if o.token is Some { (o.owner_epoch + 1) as i64 } else { o.owner_epoch },
                (now + o.lease_duration_ms) as i64,
            ),
        )
    }
}

/// Decides a writer acquisition at `now`: the new epoch and lease expiry.
pub fn plan_writer_acquisition(ownership: &WriterOwnership, now: i64) -> (r: Result<(i64, i64), SqliteAuthorityError>)
    ensures
        plain_result_view(r) == acquire_spec(ownership@, now),
{
    if ownership.token.is_some() && ownership.lease_expires_at_unix_ms > now {
        return Err(
            SqliteAuthorityError::new("writer-already-open", "SQLite-v3 candidate permits only one live authoritative writer"),
        );
    }
    let next_epoch = if ownership.token.is_some() {
        match ownership.owner_epoch.checked_add(1) {
            Some(e) => e,
            None => {
                return Err(SqliteAuthorityError::new("writer-epoch-overflow", "writer epoch overflow"));
            },
        }
    } else {
        ownership.owner_epoch
    };
    let expires = match now.checked_add(ownership.lease_duration_ms) {
        Some(x) => x,
        None => {
            return Err(SqliteAuthorityError::new("lease-overflow", "writer lease overflow"));
        },
    };
    Ok((next_epoch, expires))
}

/// What checking that a writer still owns the authority at `now` finds.
pub open spec fn ownership_check_spec(
    o: WriterOwnershipView,
    token: Seq<char>,
    epoch: i64,
    now: i64,
) -> Result<(), SqliteAuthorityErrorView> {
    if o.token != Some(token) || o.owner_epoch != epoch {
        Err(sqlite_error("writer-epoch-mismatch"@, "writer token or epoch no longer owns this authority"@))
    } else if o.lease_expires_at_unix_ms <= now {
        Err(sqlite_error("writer-lease-expired"@, "writer lease expired before authoritative transition"@))
    } else {
        Ok(())
    }
}

/// Checks that a writer, by token and epoch, still owns the authority at `now`.
pub fn validate_writer_ownership(ownership: &WriterOwnership, token: &str, epoch: i64, now: i64) -> (r: Result<
    (),
    SqliteAuthorityError,
>)
    ensures
        plain_result_view(r) == ownership_check_spec(ownership@, token@, epoch, now),
{
    let same = match &ownership.token {
        Some(t) => str_eq(t.as_str(), token),
        None => false,
    };
    if !same || ownership.owner_epoch != epoch {
        return Err(
            SqliteAuthorityError::new("writer-epoch-mismatch", "writer token or epoch no longer owns this authority"),
        );
    }
    if ownership.lease_expires_at_unix_ms <= now {
        return Err(
            SqliteAuthorityError::new("writer-lease-expired", "writer lease expired before authoritative transition"),
        );
    }
    Ok(())
}

/// The ownership row after a writer acquires it with a fresh token.
pub open spec fn acquired_spec(o: WriterOwnershipView, token: Seq<char>, epoch: i64, expires: i64) -> WriterOwnershipView {
    WriterOwnershipView { token: Some(token), owner_epoch: epoch, lease_expires_at_unix_ms: expires, ..o }
}

/// One live writer at a time: once a writer has acquired the authority, a
/// second acquisition before its lease expires is refused; and a writer that
/// took over an expired lease fences the previous holder, whose token and
/// epoch no longer own the authority.
pub proof fn law_single_live_writer(o: WriterOwnershipView, now: i64, token: Seq<char>, later: i64)
    requires
        acquire_spec(o, now) is Ok,
        o.lease_duration_ms > 0,
        later < now + o.lease_duration_ms,
    ensures
        ({
            let (epoch, expires) = acquire_spec(o, now)->Ok_0;
            let held = acquired_spec(o, token, epoch, expires);
            &&& acquire_spec(held, later) == Err::<(i64, i64), SqliteAuthorityErrorView>(
                sqlite_error("writer-already-open"@, "SQLite-v3 candidate permits only one live authoritative writer"@),
            )
            &&& (o.token matches Some(previous) ==> ownership_check_spec(held, previous, o.owner_epoch, later) is Err)
        }),
{
}

/// The bounds a canonical payload must respect: its serialized size, and the
/// number of rows it occupies across the canonical tables.
pub open spec fn state_bounds_spec(
    serialized_bytes: nat,
    revisions: nat,
    snapshots: nat,
    detectors: nat,
    cases: nat,
    ledger_events: nat,
    governance_events: nat,
) -> Result<(), SqliteAuthorityErrorView> {
    if serialized_bytes > MAX_TEXT_BYTES {
        Err(
            sqlite_error(
                "canonical-payload-too-large"@,
                "outbound canonical authority exceeds the bounded candidate payload limit"@,
            ),
        )
    } else if revisions + snapshots + detectors + cases + ledger_events + governance_events > usize::MAX {
        Err(sqlite_error("row-count-overflow"@, "row count overflow"@))
    } else if revisions + snapshots + detectors + cases + ledger_events + governance_events > MAX_ROWS_PER_TABLE {
        Err(
            sqlite_error(
                "row-count-exceeded"@,
                "outbound canonical authority exceeds the bounded candidate row limit"@,
            ),
        )
    } else {
        Ok(())
    }
}

/// The number of detectors over all snapshots of a state.
pub open spec fn detector_total(snaps: Seq<crate::model::EvidenceAnalysisSnapshotView>) -> nat
    decreases snaps.len(),
{
    if snaps.len() == 0 {
        0
    } else {
        detector_total(snaps.drop_last()) + snaps.last().detectors.len()
    }
}

/// Checks that a canonical payload of `serialized_bytes` bytes fits the
/// candidate's bounds on payload size and rows.
pub fn validate_state_bounds(state: &crate::model::CurrentContractState, serialized_bytes: usize) -> (r: Result<
    (),
    SqliteAuthorityError,
>)
    ensures
        plain_result_view(r) == state_bounds_spec(
            serialized_bytes as nat,
            state@.source_revisions.len(),
            state@.analysis_snapshots.len(),
            detector_total(state@.analysis_snapshots),
            state@.review_cases.len(),
            state@.review_ledger_events.len(),
            state@.reuse_governance_events.len(),
        ),
{
    if serialized_bytes > MAX_TEXT_BYTES {
        return Err(
            SqliteAuthorityError::new(
                "canonical-payload-too-large",
                "outbound canonical authority exceeds the bounded candidate payload limit",
            ),
        );
    }
    let ghost snaps = state@.analysis_snapshots;
    assert(state@.source_revisions.len() == state.source_revisions.len());
    assert(state@.analysis_snapshots.len() == state.analysis_snapshots.len());
    assert(state@.review_cases.len() == state.review_cases.len());
    assert(state@.review_ledger_events.len() == state.review_ledger_events.len());
    assert(state@.reuse_governance_events.len() == state.reuse_governance_events.len());
    let mut detectors: usize = 0;
    let mut i: usize = 0;
    while i < state.analysis_snapshots.len()
        invariant
            i <= state.analysis_snapshots.len(),
            snaps == state@.analysis_snapshots,
            detectors as nat == detector_total(snaps.subrange(0, i as int)),
            serialized_bytes <= MAX_TEXT_BYTES,
        decreases state.analysis_snapshots.len() - i,
    {
        proof {
            let sub = snaps.subrange(0, i + 1);
            assert(sub.drop_last() =~= snaps.subrange(0, i as int));
        }
        let n = state.analysis_snapshots[i].detectors.len();
        assert(snaps[i as int].detectors.len() == n);
        if detectors > usize::MAX - n {
            proof {
                lemma_detector_total_monotone(snaps, i + 1);
                assert(snaps.subrange(0, i + 1).drop_last() =~= snaps.subrange(0, i as int));
                assert(snaps.subrange(0, i + 1).last() == snaps[i as int]);
                assert(detector_total(snaps.subrange(0, i + 1)) == detectors + n);
            }
            return Err(SqliteAuthorityError::new("row-count-overflow", "row count overflow"));
        }
        detectors = detectors + n;
        i = i + 1;
    }
    proof {
        assert(snaps.subrange(0, state.analysis_snapshots.len() as int) =~= snaps);
    }
    let ghost full: int = (state@.source_revisions.len() + state@.analysis_snapshots.len() + detector_total(snaps)
        + state@.review_cases.len() + state@.review_ledger_events.len() + state@.reuse_governance_events.len()) as int;
    let mut total: usize = 0;
    let parts = [
        state.source_revisions.len(),
        state.analysis_snapshots.len(),
        detectors,
        state.review_cases.len(),
        state.review_ledger_events.len(),
        state.reuse_governance_events.len(),
    ];
    let ghost ps: Seq<int> = seq![
        state@.source_revisions.len() as int,
        state@.analysis_snapshots.len() as int,
        detector_total(snaps) as int,
        state@.review_cases.len() as int,
        state@.review_ledger_events.len() as int,
        state@.reuse_governance_events.len() as int,
    ];
    assert(ps[0] + ps[1] + ps[2] + ps[3] + ps[4] + ps[5] == full);
    proof {
        lemma_partial_sum_bound(ps, 0);
    }
    let mut k: usize = 0;
    while k < 6
        invariant
            k <= 6,
            ps.len() == 6,
            forall|j: int| 0 <= j < 6 ==> parts[j] as int == #[trigger] ps[j],
            ps[0] + ps[1] + ps[2] + ps[3] + ps[4] + ps[5] == full,
            total as int == partial_sum(ps, k as int),
            partial_sum(ps, k as int) <= full,
            serialized_bytes <= MAX_TEXT_BYTES,
            full == (state@.source_revisions.len() + state@.analysis_snapshots.len() + detector_total(state@.analysis_snapshots)
                + state@.review_cases.len() + state@.review_ledger_events.len() + state@.reuse_governance_events.len()) as int,
        decreases 6 - k,
    {
        proof {
            lemma_partial_sum_bound(ps, k as int + 1);
        }
        if total > usize::MAX - parts[k] {
            return Err(SqliteAuthorityError::new("row-count-overflow", "row count overflow"));
        }
        total = total + parts[k];
        k = k + 1;
    }
    proof {
        lemma_partial_sum_bound(ps, 6);
    }
    if total > MAX_ROWS_PER_TABLE {
        return Err(
            SqliteAuthorityError::new(
                "row-count-exceeded",
                "outbound canonical authority exceeds the bounded candidate row limit",
            ),
        );
    }
    Ok(())
}

/// The sum of the first `k` parts.
pub open spec fn partial_sum(ps: Seq<int>, k: int) -> int
    decreases k,
{
    if k <= 0 {
        0
    } else {
        partial_sum(ps, k - 1) + ps[k - 1]
    }
}

proof fn lemma_partial_sum_bound(ps: Seq<int>, k: int)
    requires
        ps.len() == 6,
        forall|j: int| 0 <= j < 6 ==> ps[j] >= 0,
        0 <= k <= 6,
    ensures
        partial_sum(ps, k) <= ps[0] + ps[1] + ps[2] + ps[3] + ps[4] + ps[5],
        partial_sum(ps, 6) == ps[0] + ps[1] + ps[2] + ps[3] + ps[4] + ps[5],
{
    assert(partial_sum(ps, 6) == ps[0] + ps[1] + ps[2] + ps[3] + ps[4] + ps[5]) by {
        reveal_with_fuel(partial_sum, 7);
    }
    lemma_partial_sum_monotone(ps, k, 6);
}

proof fn lemma_partial_sum_monotone(ps: Seq<int>, j: int, k: int)
    requires
        0 <= j <= k <= ps.len(),
        forall|i: int| 0 <= i < ps.len() ==> ps[i] >= 0,
    ensures
        partial_sum(ps, j) <= partial_sum(ps, k),
    decreases k - j,
{
    if j < k {
        lemma_partial_sum_monotone(ps, j, k - 1);
    }
}

proof fn lemma_detector_total_monotone(snaps: Seq<crate::model::EvidenceAnalysisSnapshotView>, i: int)
    requires
        0 <= i <= snaps.len(),
    ensures
        detector_total(snaps.subrange(0, i)) <= detector_total(snaps),
    decreases snaps.len(),
{
    if i < snaps.len() {
        assert(snaps.drop_last().subrange(0, i) =~= snaps.subrange(0, i));
        lemma_detector_total_monotone(snaps.drop_last(), i);
    } else {
        assert(snaps.subrange(0, i) =~= snaps);
    }
}

} // verus!
