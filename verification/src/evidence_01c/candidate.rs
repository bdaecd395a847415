//! The two storage candidates under comparison.
use vstd::prelude::*;
use crate::append_authority::{
    AppendAuthoritativeCandidateAdapter, OpenedAppendAuthoritySession, APPEND_AUTHORITATIVE_CANDIDATE_ID, APPEND_AUTHORITATIVE_CANDIDATE_VERSION,
};
use crate::derivation::{finalize_derived_fields, finalized_view, TranscriptReading, TranscriptReadingView};
use crate::model::{normalize_view, vec_view, CurrentContractState, CurrentContractStateView, EvidenceDurableCommandTokensView};
use crate::production_bridge::{ContractRules, ContractRulesView};
use crate::sqlite_authority::{
    handle_preconditions_spec, CurrentContractPreconditions, CurrentContractPreconditionsView,
    OpenedSqliteAuthoritySession, SqliteAuthoritativeCandidateAdapter,
    SQLITE_AUTHORITATIVE_CANDIDATE_ID, SQLITE_AUTHORITATIVE_CANDIDATE_VERSION,
};

verus! {

/// Which storage mechanism a candidate is.
#[derive(Debug, Clone, Copy, PartialEq, Eq, Structural)]
pub enum CurrentContractCandidateKind {
    Append,
    Sqlite,
}

/// A storage candidate and the directory its sessions live under.
#[allow(inconsistent_fields)]
pub enum CurrentContractCandidate {
    Append { adapter: AppendAuthoritativeCandidateAdapter, storage_root: String },
    Sqlite { adapter: SqliteAuthoritativeCandidateAdapter, storage_root: String },
}

/// A session opened on one of the candidates.
pub enum OpenedCandidateSession {
    Append(OpenedAppendAuthoritySession),
    Sqlite(OpenedSqliteAuthoritySession),
}

/// The preconditions a command prepared on an opened session carries: the
/// committed sequence or generation and the scope heads it was opened at.
pub open spec fn session_preconditions_spec(opened: OpenedCandidateSession) -> CurrentContractPreconditionsView {
    match opened {
        OpenedCandidateSession::Append(h) => CurrentContractPreconditionsView {
            expected_generation: h.sequence_view(),
            review_ledger_head: h.state_view().durable_command_tokens.review_ledger_head,
            reuse_governance_head: h.state_view().durable_command_tokens.reuse_governance_head,
            active_analysis_snapshot_identity: h.state_view().durable_command_tokens.active_analysis_snapshot_identity,
        },
        OpenedCandidateSession::Sqlite(h) => handle_preconditions_spec(h@),
    }
}

/// How long an operation took and how it ended.
pub struct OperationTiming {
    pub elapsed_ms: u128,
    pub error_code: Option<String>,
    pub succeeded: bool,
}

/// The timing of an operation that took `elapsed_ms` and ended with `result`:
/// its error code, if it failed.
pub fn operation_timing(elapsed_ms: u128, result: &Result<(), String>) -> (r: OperationTiming)
    ensures
        r.elapsed_ms == elapsed_ms,
        r.succeeded == (result is Ok),
        (match r.error_code {
            Some(c) => Some(c@),
            None => None,
        }) == (match result {
            Ok(()) => None,
            Err(code) => Some(code@),
        }),
{
    match result {
        Ok(()) => OperationTiming { elapsed_ms, error_code: None, succeeded: true },
        Err(code) => OperationTiming { elapsed_ms, error_code: Some(code.clone()), succeeded: false },
    }
}

impl CurrentContractCandidate {
    /// The candidate's id.
    pub open spec fn candidate_id_spec(&self) -> Seq<char> {
        match self {
            CurrentContractCandidate::Append { .. } => APPEND_AUTHORITATIVE_CANDIDATE_ID@,
            CurrentContractCandidate::Sqlite { .. } => SQLITE_AUTHORITATIVE_CANDIDATE_ID@,
        }
    }

    /// The candidate's version.
    pub open spec fn candidate_version_spec(&self) -> Seq<char> {
        match self {
            CurrentContractCandidate::Append { .. } => APPEND_AUTHORITATIVE_CANDIDATE_VERSION@,
            CurrentContractCandidate::Sqlite { .. } => SQLITE_AUTHORITATIVE_CANDIDATE_VERSION@,
        }
    }

    /// The preconditions a command prepared on an opened session carries.
    pub fn authoritative_preconditions(&self, opened: &OpenedCandidateSession) -> (r: Result<CurrentContractPreconditions, String>)
        ensures
            (r matches Ok(p) && p@ == session_preconditions_spec(*opened)),
    {
        match opened {
            OpenedCandidateSession::Append(handle) => {
                let state = handle.normalized_state();
                Ok(
                    CurrentContractPreconditions {
                        expected_generation: handle.committed_sequence(),
                        review_ledger_head: state.durable_command_tokens.review_ledger_head,
                        reuse_governance_head: state.durable_command_tokens.reuse_governance_head,
                        active_analysis_snapshot_identity: state.durable_command_tokens.active_analysis_snapshot_identity.clone(),
                    },
                )
            },
            OpenedCandidateSession::Sqlite(handle) => Ok(handle.authoritative_preconditions()),
        }
    }

    /// Which storage mechanism the candidate is.
    pub fn kind(&self) -> (r: CurrentContractCandidateKind)
        ensures
            r == (match self {
                CurrentContractCandidate::Append { .. } => CurrentContractCandidateKind::Append,
                CurrentContractCandidate::Sqlite { .. } => CurrentContractCandidateKind::Sqlite,
            }),
    {
        match self {
            CurrentContractCandidate::Append { .. } => CurrentContractCandidateKind::Append,
            CurrentContractCandidate::Sqlite { .. } => CurrentContractCandidateKind::Sqlite,
        }
    }

    /// The candidate's id.
    pub fn candidate_id(&self) -> (r: &'static str)
        ensures
            r@ == self.candidate_id_spec(),
    {
        match self {
            CurrentContractCandidate::Append { adapter, .. } => adapter.candidate_id(),
            CurrentContractCandidate::Sqlite { adapter, .. } => adapter.candidate_id(),
        }
    }

    /// The candidate's version.
    pub fn candidate_version(&self) -> (r: &'static str)
        ensures
            r@ == self.candidate_version_spec(),
    {
        match self {
            CurrentContractCandidate::Append { adapter, .. } => adapter.candidate_version(),
            CurrentContractCandidate::Sqlite { adapter, .. } => adapter.candidate_version(),
        }
    }

    /// Neither candidate supports compaction.
    pub fn compaction_supported(&self) -> (r: bool)
        ensures
            !r,
    {
        false
    }

    /// Neither candidate supports destructive cleanup.
    pub fn destructive_cleanup_supported(&self) -> (r: bool)
        ensures
            !r,
    {
        false
    }

    /// The directory the candidate's sessions live under.
    pub fn storage_root(&self) -> (r: &str)
        ensures
            r@ == (match self {
                CurrentContractCandidate::Append { storage_root, .. } => storage_root@,
                CurrentContractCandidate::Sqlite { storage_root, .. } => storage_root@,
            }),
    {
        match self {
            CurrentContractCandidate::Append { storage_root, .. } => storage_root.as_str(),
            CurrentContractCandidate::Sqlite { storage_root, .. } => storage_root.as_str(),
        }
    }
}

/// A state handed to another writer: its writer token replaced, derived
/// fields rebuilt and collections in canonical order.
pub open spec fn updated_writer_token_spec(
    s: CurrentContractStateView,
    token: Seq<char>,
    rules: ContractRulesView,
    readings: Seq<TranscriptReadingView>,
) -> CurrentContractStateView {
    normalize_view(
        finalized_view(
            CurrentContractStateView {
                durable_command_tokens: EvidenceDurableCommandTokensView { evidence_writer_token: token, ..s.durable_command_tokens },
                ..s
            },
            rules,
            readings,
        ),
    )
}

/// The state with its writer token replaced, derived fields rebuilt and
/// collections in canonical order.
pub fn updated_writer_token_state(
    state: CurrentContractState,
    token: &str,
    rules: &ContractRules,
    readings: &Vec<TranscriptReading>,
) -> (r: CurrentContractState)
    ensures
        r@ == updated_writer_token_spec(state@, token@, rules@, vec_view(readings@)),
{
    let mut state = state;
    state.durable_command_tokens.evidence_writer_token = String::from_str(token);
    finalize_derived_fields(&mut state, rules, readings);
    state.normalize()
}

/// The state measured for one sample: every sample measures the same state.
pub fn unique_session_id_for_sample(state: &CurrentContractState, _sample_index: u32) -> (r: CurrentContractState)
    ensures
        r@ == state@,
{
    state.clone()
}

} // verus!
