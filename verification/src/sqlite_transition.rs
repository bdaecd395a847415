//! What an authoritative SQLite transition decides before it writes, and the
//! check it makes of what it committed. The rows it reads (metadata, writer
//! ownership, committed fingerprints) and the transaction it writes in are
//! handed in and performed outside.
use vstd::prelude::*;
use crate::append_protocol::text_among;
use crate::derivation::{TranscriptReading, TranscriptReadingView};
use crate::model::{canonical_projection_view, vec_view, CurrentContractState, CurrentContractStateView};
use crate::oracle::{
    canonical_fingerprint, canonical_fingerprint_spec, compare_violations_spec, law_valid_state_compares_equal_to_itself,
    CurrentContractOracle,
};
use crate::production_bridge::{ContractRules, ContractRulesView};
use crate::sqlite_authority::{
    canonicalized_state, canonicalized_view, session_id_safe_spec, sqlite_error, sqlite_state_violations_spec,
    validate_session_id, validate_state,
    writable_handle_spec, CurrentContractPreconditions, CurrentContractPreconditionsView, OpenedSqliteAuthoritySession,
    OpenedSqliteAuthoritySessionView, SqliteAuthoritativeCandidateAdapter, SqliteAuthorityError, SqliteAuthorityErrorView,
};
use crate::sqlite_rows::{
    detector_total, ownership_check_spec, plain_result_view, preconditions_check_spec, state_bounds_spec,
    validate_preconditions, validate_state_bounds, validate_writer_ownership, SessionMetadata, SessionMetadataView,
    WriterOwnership, WriterOwnershipView,
};
use crate::text::{decimal_spec, str_eq};

verus! {

/// An authoritative SQLite transition the candidate has decided to write.
pub struct PlannedSqliteTransition {
    pub canonical_state: CurrentContractState,
    pub canonical_fingerprint: String,
    pub next_generation: u64,
}

/// The mathematical value of a [`PlannedSqliteTransition`].
pub struct PlannedSqliteTransitionView {
    pub canonical_state: CurrentContractStateView,
    pub canonical_fingerprint: Seq<char>,
    pub next_generation: u64,
}

impl View for PlannedSqliteTransition {
    type V = PlannedSqliteTransitionView;

    open spec fn view(&self) -> PlannedSqliteTransitionView {
        PlannedSqliteTransitionView {
            canonical_state: self.canonical_state@,
            canonical_fingerprint: self.canonical_fingerprint@,
            next_generation: self.next_generation,
        }
    }
}

/// The bounds check of a canonical state whose serialization is `serialized_bytes` long.
pub open spec fn bounds_of(s: CurrentContractStateView, serialized_bytes: usize) -> Result<(), SqliteAuthorityErrorView> {
    state_bounds_spec(
        serialized_bytes as nat,
        s.source_revisions.len(),
        s.analysis_snapshots.len(),
        detector_total(s.analysis_snapshots),
        s.review_cases.len(),
        s.review_ledger_events.len(),
        s.reuse_governance_events.len(),
    )
}

/// What an authoritative SQLite transition decides, in order: the handle
/// must be this adapter's writable one; the canonicalized next state must
/// pass the oracle and the candidate's bounds and keep the session identity;
/// the handle's writer token and epoch must still own a live lease; the stored metadata must meet the
/// command's preconditions; the generation must not overflow; and the
/// canonical identity must not repeat a committed one. The plan writes the
/// canonical state at the next generation.
pub open spec fn plan_sqlite_spec(
    adapter_identity: Seq<char>,
    opened: OpenedSqliteAuthoritySessionView,
    ownership: WriterOwnershipView,
    now_unix_ms: i64,
    metadata: SessionMetadataView,
    preconditions: CurrentContractPreconditionsView,
    committed_fingerprints: Seq<Seq<char>>,
    next_state: CurrentContractStateView,
    serialized_bytes: usize,
    rules: ContractRulesView,
    readings: Seq<TranscriptReadingView>,
) -> Result<PlannedSqliteTransitionView, SqliteAuthorityErrorView> {
    let canonical = canonicalized_view(next_state, rules, readings);
    let violations = sqlite_state_violations_spec(canonical, rules, readings);
    let fingerprint = canonical_fingerprint_spec(canonical_projection_view(canonical));
    let writer_token = opened.writer_token;
    let writer_epoch = opened.writer_epoch;
    if writable_handle_spec(adapter_identity, opened) is Err {
        Err(writable_handle_spec(adapter_identity, opened)->Err_0)
    } else if violations.len() > 0 {
        Err(
            sqlite_error(
                "current-contract-oracle-rejected"@,
                decimal_spec(violations.len()) + " current-contract oracle violation(s)"@,
            ),
        )
    } else if bounds_of(canonical, serialized_bytes) is Err {
        Err(bounds_of(canonical, serialized_bytes)->Err_0)
    } else if canonical.session_id != opened.session.session_id {
        Err(
            sqlite_error(
                "session-identity-transition"@,
                "authoritative transition cannot change the semantic session identity"@,
            ),
        )
    } else if writer_token is None {
        Err(sqlite_error("not-authoritative-writer"@, "missing writer token"@))
    } else if writer_epoch is None {
        Err(sqlite_error("not-authoritative-writer"@, "missing writer epoch"@))
    } else if ownership_check_spec(ownership, writer_token->0, writer_epoch->0, now_unix_ms) is Err {
        Err(ownership_check_spec(ownership, writer_token->0, writer_epoch->0, now_unix_ms)->Err_0)
    } else if preconditions_check_spec(metadata, preconditions) is Err {
        Err(preconditions_check_spec(metadata, preconditions)->Err_0)
    } else if metadata.committed_generation == u64::MAX {
        Err(sqlite_error("generation-overflow"@, "generation overflow"@))
    } else if committed_fingerprints.contains(fingerprint) {
        Err(
            sqlite_error(
                "semantic-duplicate-transition"@,
                "authoritative transition repeats a committed canonical identity"@,
            ),
        )
    } else {
        Ok(
            PlannedSqliteTransitionView {
                canonical_state: canonical,
                canonical_fingerprint: fingerprint,
                next_generation: (metadata.committed_generation + 1) as u64,
            },
        )
    }
}

/// Decides an authoritative SQLite transition through a handle opened for
/// writing, over the rows read in the transaction. `serialized_bytes` is the
/// length of the serialized canonicalized next state; `committed_fingerprints`
/// are the canonical fingerprints of the transitions already committed.
pub fn plan_sqlite_transition(
    adapter: &SqliteAuthoritativeCandidateAdapter,
    opened: &OpenedSqliteAuthoritySession,
    ownership: &WriterOwnership,
    now_unix_ms: i64,
    metadata: &SessionMetadata,
    preconditions: &CurrentContractPreconditions,
    committed_fingerprints: &Vec<String>,
    next_state: &CurrentContractState,
    serialized_bytes: usize,
    rules: &ContractRules,
    readings: &Vec<TranscriptReading>,
) -> (r: Result<PlannedSqliteTransition, SqliteAuthorityError>)
    ensures
        (match r {
            Ok(p) => Ok(p@),
            Err(e) => Err(e@),
        }) == plan_sqlite_spec(
            adapter@.adapter_identity,
            opened@,
            ownership@,
            now_unix_ms,
            metadata@,
            preconditions@,
            vec_view(committed_fingerprints@),
            next_state@,
            serialized_bytes,
            rules@,
            vec_view(readings@),
        ),
{
    adapter.validate_writable_handle(opened)?;
    let canonical = canonicalized_state(next_state.clone(), rules, readings);
    validate_state(&canonical, rules, readings)?;
    validate_state_bounds(&canonical, serialized_bytes)?;
    if !str_eq(canonical.session_id.as_str(), opened.session().session_id()) {
        return Err(
            SqliteAuthorityError::new(
                "session-identity-transition",
                "authoritative transition cannot change the semantic session identity",
            ),
        );
    }
    let token = match opened.writer_token() {
        Some(t) => t,
        None => {
            return Err(SqliteAuthorityError::new("not-authoritative-writer", "missing writer token"));
        },
    };
    let epoch = match opened.writer_epoch() {
        Some(e) => e,
        None => {
            return Err(SqliteAuthorityError::new("not-authoritative-writer", "missing writer epoch"));
        },
    };
    validate_writer_ownership(ownership, token, epoch, now_unix_ms)?;
    validate_preconditions(metadata, preconditions)?;
    let fingerprint = canonical_fingerprint(&canonical.canonical_projection());
    let next_generation = match metadata.committed_generation.checked_add(1) {
        Some(g) => g,
        None => {
            return Err(SqliteAuthorityError::new("generation-overflow", "generation overflow"));
        },
    };
    if text_among(committed_fingerprints, &fingerprint) {
        return Err(
            SqliteAuthorityError::new(
                "semantic-duplicate-transition",
                "authoritative transition repeats a committed canonical identity",
            ),
        );
    }
    Ok(PlannedSqliteTransition { canonical_state: canonical, canonical_fingerprint: fingerprint, next_generation })
}

/// What creating a session decides: the canonicalized state must pass the
/// oracle, have a safe session id and fit the candidate's bounds; it is then
/// written as generation one.
pub open spec fn plan_create_spec(
    state: CurrentContractStateView,
    serialized_bytes: usize,
    rules: ContractRulesView,
    readings: Seq<TranscriptReadingView>,
) -> Result<PlannedSqliteTransitionView, SqliteAuthorityErrorView> {
    let canonical = canonicalized_view(state, rules, readings);
    let violations = sqlite_state_violations_spec(canonical, rules, readings);
    if violations.len() > 0 {
        Err(
            sqlite_error(
                "current-contract-oracle-rejected"@,
                decimal_spec(violations.len()) + " current-contract oracle violation(s)"@,
            ),
        )
    } else if !session_id_safe_spec(canonical.session_id) {
        Err(sqlite_error("unsafe-session-id"@, "semantic session identity must be bounded, non-NUL, and not a path"@))
    } else if bounds_of(canonical, serialized_bytes) is Err {
        Err(bounds_of(canonical, serialized_bytes)->Err_0)
    } else {
        Ok(
            PlannedSqliteTransitionView {
                canonical_state: canonical,
                canonical_fingerprint: canonical_fingerprint_spec(canonical_projection_view(canonical)),
                next_generation: 1,
            },
        )
    }
}

/// Decides the creation of a session; `serialized_bytes` is the length of
/// the serialized canonicalized state.
pub fn plan_sqlite_create(
    state: &CurrentContractState,
    serialized_bytes: usize,
    rules: &ContractRules,
    readings: &Vec<TranscriptReading>,
) -> (r: Result<PlannedSqliteTransition, SqliteAuthorityError>)
    ensures
        (match r {
            Ok(p) => Ok(p@),
            Err(e) => Err(e@),
        }) == plan_create_spec(state@, serialized_bytes, rules@, vec_view(readings@)),
{
    let canonical = canonicalized_state(state.clone(), rules, readings);
    validate_state(&canonical, rules, readings)?;
    validate_session_id(canonical.session_id.as_str())?;
    validate_state_bounds(&canonical, serialized_bytes)?;
    let fingerprint = canonical_fingerprint(&canonical.canonical_projection());
    Ok(PlannedSqliteTransition { canonical_state: canonical, canonical_fingerprint: fingerprint, next_generation: 1 })
}

/// What the check of a newly created session finds: its fresh metadata must
/// be at generation one and its rows must reconstruct the created state.
pub open spec fn created_check_spec(
    planned: PlannedSqliteTransitionView,
    fresh_generation: u64,
    reconstructed: CurrentContractStateView,
    rules: ContractRulesView,
    readings: Seq<TranscriptReadingView>,
) -> Result<(), SqliteAuthorityErrorView> {
    if fresh_generation != 1 || compare_violations_spec(planned.canonical_state, reconstructed, rules, readings).len()
        > 0 {
        Err(
            sqlite_error(
                "post-commit-verification-failed"@,
                "initial SQLite authority did not reconstruct through the v3 oracle"@,
            ),
        )
    } else {
        Ok(())
    }
}

/// Checks a newly created session against what was planned.
pub fn verify_created_authority(
    planned: &PlannedSqliteTransition,
    fresh_generation: u64,
    reconstructed: &CurrentContractState,
    rules: &ContractRules,
    readings: &Vec<TranscriptReading>,
) -> (r: Result<(), SqliteAuthorityError>)
    ensures
        plain_result_view(r) == created_check_spec(planned@, fresh_generation, reconstructed@, rules@, vec_view(readings@)),
{
    let comparison = CurrentContractOracle::compare(&planned.canonical_state, reconstructed, rules, readings);
    if fresh_generation != 1 || !comparison.passed {
        return Err(
            SqliteAuthorityError::new(
                "post-commit-verification-failed",
                "initial SQLite authority did not reconstruct through the v3 oracle",
            ),
        );
    }
    Ok(())
}

/// What the check of a committed transition finds: the fresh metadata must be
/// at the planned generation and the rows read back must reconstruct the
/// planned state under the oracle.
pub open spec fn committed_check_spec(
    planned: PlannedSqliteTransitionView,
    fresh_generation: u64,
    reconstructed: CurrentContractStateView,
    rules: ContractRulesView,
    readings: Seq<TranscriptReadingView>,
) -> Result<(), SqliteAuthorityErrorView> {
    if fresh_generation != planned.next_generation || compare_violations_spec(
        planned.canonical_state,
        reconstructed,
        rules,
        readings,
    ).len() > 0 {
        Err(
            sqlite_error(
                "post-commit-verification-failed"@,
                "committed SQLite rows did not independently reconstruct through oracle v3"@,
            ),
        )
    } else {
        Ok(())
    }
}

/// Checks a committed transition against what was planned.
pub fn verify_committed_transition(
    planned: &PlannedSqliteTransition,
    fresh_generation: u64,
    reconstructed: &CurrentContractState,
    rules: &ContractRules,
    readings: &Vec<TranscriptReading>,
) -> (r: Result<(), SqliteAuthorityError>)
    ensures
        plain_result_view(r) == committed_check_spec(planned@, fresh_generation, reconstructed@, rules@, vec_view(readings@)),
{
    let comparison = CurrentContractOracle::compare(&planned.canonical_state, reconstructed, rules, readings);
    if fresh_generation != planned.next_generation || !comparison.passed {
        return Err(
            SqliteAuthorityError::new(
                "post-commit-verification-failed",
                "committed SQLite rows did not independently reconstruct through oracle v3",
            ),
        );
    }
    Ok(())
}

/// What a transition writes reads back as itself: for every transition the
/// candidate plans, rows that reconstruct exactly the planned state at the
/// planned generation pass the check of the commit.
pub proof fn law_reproduced_plan_passes_commit_check(
    adapter_identity: Seq<char>,
    opened: OpenedSqliteAuthoritySessionView,
    ownership: WriterOwnershipView,
    now_unix_ms: i64,
    metadata: SessionMetadataView,
    preconditions: CurrentContractPreconditionsView,
    committed_fingerprints: Seq<Seq<char>>,
    next_state: CurrentContractStateView,
    serialized_bytes: usize,
    rules: ContractRulesView,
    readings: Seq<TranscriptReadingView>,
)
    requires
        plan_sqlite_spec(
            adapter_identity,
            opened,
            ownership,
            now_unix_ms,
            metadata,
            preconditions,
            committed_fingerprints,
            next_state,
            serialized_bytes,
            rules,
            readings,
        ) is Ok,
    ensures
        ({
            let p = plan_sqlite_spec(
                adapter_identity,
                opened,
                ownership,
                now_unix_ms,
                metadata,
                preconditions,
                committed_fingerprints,
                next_state,
                serialized_bytes,
                rules,
                readings,
            )->Ok_0;
            &&& p.next_generation == metadata.committed_generation + 1
            &&& committed_check_spec(p, p.next_generation, p.canonical_state, rules, readings) is Ok
        }),
{
    let canonical = canonicalized_view(next_state, rules, readings);
    reveal(sqlite_state_violations_spec);
    law_valid_state_compares_equal_to_itself(canonical, rules, readings);
}

/// A created session reads back as itself: for every creation the candidate
/// plans, rows that reconstruct exactly the created state at generation one
/// pass the check of the creation.
pub proof fn law_reproduced_creation_passes_check(
    state: CurrentContractStateView,
    serialized_bytes: usize,
    rules: ContractRulesView,
    readings: Seq<TranscriptReadingView>,
)
    requires
        plan_create_spec(state, serialized_bytes, rules, readings) is Ok,
    ensures
        ({
            let p = plan_create_spec(state, serialized_bytes, rules, readings)->Ok_0;
            created_check_spec(p, 1, p.canonical_state, rules, readings) is Ok
        }),
{
    reveal(sqlite_state_violations_spec);
    law_valid_state_compares_equal_to_itself(canonicalized_view(state, rules, readings), rules, readings);
}

} // verus!
