use vstd::prelude::*;
use crate::sqlite_authority::{
    sqlite_error, sqlite_state_violations_spec, validate_state, SqliteAuthoritativeCandidateAdapter,
    SqliteAuthorityError, SqliteAuthorityErrorView, SQLITE_AUTHORITATIVE_CANDIDATE_ID,
};
use crate::derivation::{finalize_derived_fields, finalized_view, TranscriptReading, TranscriptReadingView};
use crate::model::{
    EvidenceAnalysisSnapshot, EvidenceAnalysisSnapshotView, normalize_view, vec_duplicate, vec_view, opt_duplicate, canonical_projection_view, CurrentContractState,
    CurrentContractStateView, EvidenceDurableCommandTokensView, SameAs,
};
use crate::production_bridge::{ContractRules, ContractRulesView};
use crate::text::decimal_spec;

verus! {

/// The version of the scoped-precondition SQLite candidate.
pub const SQLITE_SCOPED_PRECONDITION_CANDIDATE_VERSION: &'static str = "01C-SQLITE-3";

/// The one write-set an authoritative command changes.
#[derive(Debug, Clone, Copy, PartialEq, Eq, Structural)]
pub enum SqliteCommandScope {
    ReviewLedger,
    ReuseGovernance,
    ActiveAnalysis,
}

/// The authority heads a command was prepared against.
pub struct SqliteScopedPreconditions {
    pub review_ledger_head: usize,
    pub reuse_governance_head: usize,
    pub active_analysis_snapshot_identity: String,
}

/// The mathematical value of an [`SqliteScopedPreconditions`].
pub struct SqliteScopedPreconditionsView {
    pub review_ledger_head: usize,
    pub reuse_governance_head: usize,
    pub active_analysis_snapshot_identity: Seq<char>,
}

impl View for SqliteScopedPreconditions {
    type V = SqliteScopedPreconditionsView;

    open spec fn view(&self) -> SqliteScopedPreconditionsView {
        SqliteScopedPreconditionsView {
            review_ledger_head: self.review_ledger_head,
            reuse_governance_head: self.reuse_governance_head,
            active_analysis_snapshot_identity: self.active_analysis_snapshot_identity@,
        }
    }
}

impl Clone for SqliteScopedPreconditions {
    fn clone(&self) -> (r: Self)
        ensures
            r@ == self@,
    {
        SqliteScopedPreconditions {
            review_ledger_head: self.review_ledger_head,
            reuse_governance_head: self.reuse_governance_head,
            active_analysis_snapshot_identity: self.active_analysis_snapshot_identity.clone(),
        }
    }
}

/// The heads of a state's authority, as a command prepared against it records them.
pub open spec fn preconditions_of(s: CurrentContractStateView) -> SqliteScopedPreconditionsView {
    SqliteScopedPreconditionsView {
        review_ledger_head: s.durable_command_tokens.review_ledger_head,
        reuse_governance_head: s.durable_command_tokens.reuse_governance_head,
        active_analysis_snapshot_identity: s.durable_command_tokens.active_analysis_snapshot_identity,
    }
}

impl SqliteScopedPreconditions {
    /// The heads of the authority a command is prepared against.
    pub fn from_authority_at_command_prepare(state: &CurrentContractState) -> (r: Self)
        ensures
            r@ == preconditions_of(state@),
    {
        SqliteScopedPreconditions {
            review_ledger_head: state.durable_command_tokens.review_ledger_head,
            reuse_governance_head: state.durable_command_tokens.reuse_governance_head,
            active_analysis_snapshot_identity: state.durable_command_tokens.active_analysis_snapshot_identity.clone(),
        }
    }
}

/// A command that moves one write-set of the authority from a precursor state to a target state.
pub struct SqliteScopedCommand {
    pub scope: SqliteCommandScope,
    pub preconditions: SqliteScopedPreconditions,
    precursor: CurrentContractState,
    target: CurrentContractState,
}

/// The mathematical value of an [`SqliteScopedCommand`].
pub struct SqliteScopedCommandView {
    pub scope: SqliteCommandScope,
    pub preconditions: SqliteScopedPreconditionsView,
    pub precursor: CurrentContractStateView,
    pub target: CurrentContractStateView,
}

impl View for SqliteScopedCommand {
    type V = SqliteScopedCommandView;

    closed spec fn view(&self) -> SqliteScopedCommandView {
        SqliteScopedCommandView {
            scope: self.scope,
            preconditions: self.preconditions@,
            precursor: self.precursor@,
            target: self.target@,
        }
    }
}

impl SqliteScopedCommand {
    /// The command of a transition, prepared against its precursor.
    pub fn from_transition_pair(
        scope: SqliteCommandScope,
        precursor: &CurrentContractState,
        target: &CurrentContractState,
    ) -> (r: Self)
        ensures
            r@ == (SqliteScopedCommandView {
                scope,
                preconditions: preconditions_of(precursor@),
                precursor: precursor@,
                target: target@,
            }),
    {
        SqliteScopedCommand {
            scope,
            preconditions: SqliteScopedPreconditions::from_authority_at_command_prepare(precursor),
            precursor: precursor.clone(),
            target: target.clone(),
        }
    }

    /// The state the command was prepared against.
    pub fn precursor(&self) -> (r: &CurrentContractState)
        ensures
            r@ == self@.precursor,
    {
        &self.precursor
    }

    /// The state the command leads to.
    pub fn target(&self) -> (r: &CurrentContractState)
        ensures
            r@ == self@.target,
    {
        &self.target
    }

    /// Applies the command's write-set onto the current authority.
    pub fn apply_onto(
        &self,
        current: &CurrentContractState,
        rules: &ContractRules,
        readings: &Vec<TranscriptReading>,
    ) -> (r: Result<CurrentContractState, SqliteAuthorityError>)
        ensures
            state_result_view(r) == apply_onto_spec(self@, current@, rules@, vec_view(readings@)),
    {
        let mut result = current.clone();
        match self.scope {
            SqliteCommandScope::ReviewLedger => {
                result.review_ledger_events = vec_duplicate(&self.target.review_ledger_events);
                result.effective_review_status = vec_duplicate(&self.target.effective_review_status);
                result.durable_command_tokens.review_ledger_head = self.target.durable_command_tokens.review_ledger_head;
            },
            SqliteCommandScope::ReuseGovernance => {
                result.reuse_governance_events = vec_duplicate(&self.target.reuse_governance_events);
                result.effective_reusable_records = vec_duplicate(&self.target.effective_reusable_records);
                result.historical_reusable_records = vec_duplicate(&self.target.historical_reusable_records);
                result.reusable_snapshot_identity = self.target.reusable_snapshot_identity.clone();
                result.reuse_enabled_analysis_binding = opt_duplicate(&self.target.reuse_enabled_analysis_binding);
                match &self.target.reuse_enabled_analysis_binding {
                    Some(binding) => {
                        if !snapshot_listed(&result.analysis_snapshots, &binding.analysis_snapshot_identity) {
                            result.analysis_snapshots.push(binding.analysis_snapshot.clone());
                        }
                    },
                    None => {},
                }
                result.durable_command_tokens.reuse_governance_head =
                    self.target.durable_command_tokens.reuse_governance_head;
            },
            SqliteCommandScope::ActiveAnalysis => {
                result.analysis_snapshots = merge_snapshots_exec(&current.analysis_snapshots, &self.target.analysis_snapshots);
                result.durable_command_tokens.active_analysis_snapshot_identity =
                    self.target.durable_command_tokens.active_analysis_snapshot_identity.clone();
            },
        }
        proof {
            assert(vec_view(result.analysis_snapshots@) == scope_patch_view(self@.scope, current@, self@.target).analysis_snapshots);
            assert(result@ == scope_patch_view(self@.scope, current@, self@.target));
        }
        finalize_and_validate(&mut result, rules, readings)
    }
}

/// Some snapshot has the given identity.
pub open spec fn has_snapshot_identity(snaps: Seq<EvidenceAnalysisSnapshotView>, id: Seq<char>) -> bool {
    exists|k: int| 0 <= k < snaps.len() && (#[trigger] snaps[k]).identity == id
}

fn snapshot_listed(snaps: &Vec<EvidenceAnalysisSnapshot>, id: &String) -> (r: bool)
    ensures
        r == has_snapshot_identity(vec_view(snaps@), id@),
{
    let ghost sv = vec_view(snaps@);
    let mut k: usize = 0;
    while k < snaps.len()
        invariant
            k <= snaps.len(),
            sv == vec_view(snaps@),
            forall|j: int| 0 <= j < k ==> (#[trigger] sv[j]).identity != id@,
        decreases snaps.len() - k,
    {
        if snaps[k].identity.same_as(id) {
            proof {
                assert(sv[k as int].identity == id@);
            }
            return true;
        }
        k = k + 1;
    }
    false
}

/// The existing snapshots, then each of the first `n` incoming snapshots whose
/// identity is not yet present.
pub open spec fn merge_snapshots(
    existing: Seq<EvidenceAnalysisSnapshotView>,
    incoming: Seq<EvidenceAnalysisSnapshotView>,
    n: int,
) -> Seq<EvidenceAnalysisSnapshotView>
    decreases n,
{
    if n <= 0 {
        existing
    } else {
        let prev = merge_snapshots(existing, incoming, n - 1);
        if has_snapshot_identity(prev, incoming[n - 1].identity) {
            prev
        } else {
            prev.push(incoming[n - 1])
        }
    }
}

fn merge_snapshots_exec(
    existing: &Vec<EvidenceAnalysisSnapshot>,
    incoming: &Vec<EvidenceAnalysisSnapshot>,
) -> (r: Vec<EvidenceAnalysisSnapshot>)
    ensures
        vec_view(r@) == merge_snapshots(vec_view(existing@), vec_view(incoming@), incoming@.len() as int),
{
    let mut out = vec_duplicate(existing);
    let mut i: usize = 0;
    while i < incoming.len()
        invariant
            i <= incoming.len(),
            vec_view(out@) == merge_snapshots(vec_view(existing@), vec_view(incoming@), i as int),
        decreases incoming.len() - i,
    {
        let snapshot = &incoming[i];
        proof {
            assert(vec_view(incoming@)[i as int] == snapshot@);
        }
        if !snapshot_listed(&out, &snapshot.identity) {
            let ghost before = vec_view(out@);
            out.push(snapshot.clone());
            proof {
                assert(vec_view(out@) =~= before.push(snapshot@));
            }
        }
        i = i + 1;
    }
    out
}

/// The result of a state-producing step, as a value.
pub open spec fn state_result_view(r: Result<CurrentContractState, SqliteAuthorityError>) -> Result<
    CurrentContractStateView,
    SqliteAuthorityErrorView,
> {
    match r {
        Ok(s) => Ok(s@),
        Err(e) => Err(e@),
    }
}

/// The result of a check, as a value.
pub open spec fn unit_sqlite_view(r: Result<(), SqliteAuthorityError>) -> Result<(), SqliteAuthorityErrorView> {
    match r {
        Ok(_) => Ok(()),
        Err(e) => Err(e@),
    }
}

/// The review-ledger head moved between the two states.
pub open spec fn review_changed(p: CurrentContractStateView, t: CurrentContractStateView) -> bool {
    p.durable_command_tokens.review_ledger_head != t.durable_command_tokens.review_ledger_head
}

/// The reuse-governance head moved between the two states.
pub open spec fn reuse_changed(p: CurrentContractStateView, t: CurrentContractStateView) -> bool {
    p.durable_command_tokens.reuse_governance_head != t.durable_command_tokens.reuse_governance_head
}

/// The active analysis selection changed between the two states.
pub open spec fn analysis_changed(p: CurrentContractStateView, t: CurrentContractStateView) -> bool {
    p.durable_command_tokens.active_analysis_snapshot_identity != t.durable_command_tokens.active_analysis_snapshot_identity
}

/// The scope of the one write-set a transition changes; refused where it
/// changes none or more than one.
pub open spec fn infer_scope_spec(p: CurrentContractStateView, t: CurrentContractStateView) -> Result<
    SqliteCommandScope,
    SqliteAuthorityErrorView,
> {
    let r = review_changed(p, t);
    let u = reuse_changed(p, t);
    let a = analysis_changed(p, t);
    if r && !u && !a {
        Ok(SqliteCommandScope::ReviewLedger)
    } else if !r && u && !a {
        Ok(SqliteCommandScope::ReuseGovernance)
    } else if !r && !u && a {
        Ok(SqliteCommandScope::ActiveAnalysis)
    } else {
        Err(sqlite_error("ambiguous-scoped-command"@, "transition must change exactly one scoped write-set"@))
    }
}

/// The scope of the one write-set a transition changes.
pub fn infer_command_scope(precursor: &CurrentContractState, target: &CurrentContractState) -> (r: Result<
    SqliteCommandScope,
    SqliteAuthorityError,
>)
    ensures
        sqlite_result_view_scope(r) == infer_scope_spec(precursor@, target@),
{
    let review = precursor.durable_command_tokens.review_ledger_head != target.durable_command_tokens.review_ledger_head;
    let reuse = precursor.durable_command_tokens.reuse_governance_head
        != target.durable_command_tokens.reuse_governance_head;
    let analysis = !precursor.durable_command_tokens.active_analysis_snapshot_identity.same_as(
        &target.durable_command_tokens.active_analysis_snapshot_identity,
    );
    if review && !reuse && !analysis {
        Ok(SqliteCommandScope::ReviewLedger)
    } else if !review && reuse && !analysis {
        Ok(SqliteCommandScope::ReuseGovernance)
    } else if !review && !reuse && analysis {
        Ok(SqliteCommandScope::ActiveAnalysis)
    } else {
        Err(SqliteAuthorityError::new("ambiguous-scoped-command", "transition must change exactly one scoped write-set"))
    }
}

/// The result of a scope inference, as a value.
pub open spec fn sqlite_result_view_scope(r: Result<SqliteCommandScope, SqliteAuthorityError>) -> Result<
    SqliteCommandScope,
    SqliteAuthorityErrorView,
> {
    match r {
        Ok(s) => Ok(s),
        Err(e) => Err(e@),
    }
}

/// Whether the current authority still has the head the command was prepared
/// against, in the command's own scope.
pub open spec fn scoped_preconditions_spec(
    current: CurrentContractStateView,
    scope: SqliteCommandScope,
    pre: SqliteScopedPreconditionsView,
) -> Result<(), SqliteAuthorityErrorView> {
    let tokens = current.durable_command_tokens;
    match scope {
        SqliteCommandScope::ReviewLedger => if tokens.review_ledger_head != pre.review_ledger_head {
            Err(sqlite_error("stale-review-ledger-precondition"@, "review-ledger head precondition is stale"@))
        } else {
            Ok(())
        },
        SqliteCommandScope::ReuseGovernance => if tokens.reuse_governance_head != pre.reuse_governance_head {
            Err(sqlite_error("stale-reuse-governance-precondition"@, "reuse-governance head precondition is stale"@))
        } else {
            Ok(())
        },
        SqliteCommandScope::ActiveAnalysis => if tokens.active_analysis_snapshot_identity
            != pre.active_analysis_snapshot_identity {
            Err(
                sqlite_error(
                    "stale-analysis-selection-precondition"@,
                    "active analysis selection precondition is stale"@,
                ),
            )
        } else {
            Ok(())
        },
    }
}

/// Refuses a command whose prepared head in its own scope is stale.
pub fn validate_scoped_preconditions(
    current: &CurrentContractState,
    scope: SqliteCommandScope,
    preconditions: &SqliteScopedPreconditions,
) -> (r: Result<(), SqliteAuthorityError>)
    ensures
        unit_sqlite_view(r) == scoped_preconditions_spec(current@, scope, preconditions@),
{
    match scope {
        SqliteCommandScope::ReviewLedger => {
            if current.durable_command_tokens.review_ledger_head != preconditions.review_ledger_head {
                return Err(
                    SqliteAuthorityError::new(
                        "stale-review-ledger-precondition",
                        "review-ledger head precondition is stale",
                    ),
                );
            }
        },
        SqliteCommandScope::ReuseGovernance => {
            if current.durable_command_tokens.reuse_governance_head != preconditions.reuse_governance_head {
                return Err(
                    SqliteAuthorityError::new(
                        "stale-reuse-governance-precondition",
                        "reuse-governance head precondition is stale",
                    ),
                );
            }
        },
        SqliteCommandScope::ActiveAnalysis => {
            if !current.durable_command_tokens.active_analysis_snapshot_identity.same_as(
                &preconditions.active_analysis_snapshot_identity,
            ) {
                return Err(
                    SqliteAuthorityError::new(
                        "stale-analysis-selection-precondition",
                        "active analysis selection precondition is stale",
                    ),
                );
            }
        },
    }
    Ok(())
}

/// The current state with the command's write-set taken from the target.
pub open spec fn scope_patch_view(
    scope: SqliteCommandScope,
    current: CurrentContractStateView,
    target: CurrentContractStateView,
) -> CurrentContractStateView {
    let tokens = current.durable_command_tokens;
    match scope {
        SqliteCommandScope::ReviewLedger => CurrentContractStateView {
            review_ledger_events: target.review_ledger_events,
            effective_review_status: target.effective_review_status,
            durable_command_tokens: EvidenceDurableCommandTokensView {
                review_ledger_head: target.durable_command_tokens.review_ledger_head,
                ..tokens
            },
            ..current
        },
        SqliteCommandScope::ReuseGovernance => CurrentContractStateView {
            analysis_snapshots: match target.reuse_enabled_analysis_binding {
                Some(b) => if has_snapshot_identity(current.analysis_snapshots, b.analysis_snapshot_identity) {
                    current.analysis_snapshots
                } else {
                    current.analysis_snapshots.push(b.analysis_snapshot)
                },
                None => current.analysis_snapshots,
            },
            reuse_governance_events: target.reuse_governance_events,
            effective_reusable_records: target.effective_reusable_records,
            historical_reusable_records: target.historical_reusable_records,
            reusable_snapshot_identity: target.reusable_snapshot_identity,
            reuse_enabled_analysis_binding: target.reuse_enabled_analysis_binding,
            durable_command_tokens: EvidenceDurableCommandTokensView {
                reuse_governance_head: target.durable_command_tokens.reuse_governance_head,
                ..tokens
            },
            ..current
        },
        SqliteCommandScope::ActiveAnalysis => CurrentContractStateView {
            analysis_snapshots: merge_snapshots(
                current.analysis_snapshots,
                target.analysis_snapshots,
                target.analysis_snapshots.len() as int,
            ),
            durable_command_tokens: EvidenceDurableCommandTokensView {
                active_analysis_snapshot_identity: target.durable_command_tokens.active_analysis_snapshot_identity,
                ..tokens
            },
            ..current
        },
    }
}

/// A patched state with its derived fields rebuilt and normalized, if the oracle accepts it.
pub open spec fn finalize_and_validate_spec(
    s: CurrentContractStateView,
    rules: ContractRulesView,
    readings: Seq<TranscriptReadingView>,
) -> Result<CurrentContractStateView, SqliteAuthorityErrorView> {
    let normalized = normalize_view(finalized_view(s, rules, readings));
    let found = sqlite_state_violations_spec(normalized, rules, readings);
    if found.len() == 0 {
        Ok(normalized)
    } else {
        Err(
            sqlite_error(
                "current-contract-oracle-rejected"@,
                decimal_spec(found.len()) + " current-contract oracle violation(s)"@,
            ),
        )
    }
}

fn finalize_and_validate(
    state: &mut CurrentContractState,
    rules: &ContractRules,
    readings: &Vec<TranscriptReading>,
) -> (r: Result<CurrentContractState, SqliteAuthorityError>)
    ensures
        final(state)@ == finalized_view(old(state)@, rules@, vec_view(readings@)),
        state_result_view(r) == finalize_and_validate_spec(old(state)@, rules@, vec_view(readings@)),
{
    finalize_derived_fields(state, rules, readings);
    let normalized = state.clone().normalize();
    match validate_state(&normalized, rules, readings) {
        Err(e) => Err(e),
        Ok(()) => Ok(normalized),
    }
}

/// What applying a command onto the current authority gives: the patched,
/// rebuilt and validated state.
pub open spec fn apply_onto_spec(
    c: SqliteScopedCommandView,
    current: CurrentContractStateView,
    rules: ContractRulesView,
    readings: Seq<TranscriptReadingView>,
) -> Result<CurrentContractStateView, SqliteAuthorityErrorView> {
    finalize_and_validate_spec(scope_patch_view(c.scope, current, c.target), rules, readings)
}

/// The candidate that applies scoped commands onto the latest SQLite authority.
pub struct SqliteScopedPreconditionCandidateAdapter {
    inner: SqliteAuthoritativeCandidateAdapter,
}

impl SqliteScopedPreconditionCandidateAdapter {
    /// The scoped candidate over a SQLite candidate.
    pub fn new(inner: SqliteAuthoritativeCandidateAdapter) -> (r: Self)
        ensures
            r.inner_view() == inner@,
    {
        SqliteScopedPreconditionCandidateAdapter { inner }
    }

    /// The SQLite candidate underneath.
    pub fn inner(&self) -> (r: &SqliteAuthoritativeCandidateAdapter)
        ensures
            r@ == self.inner_view(),
    {
        &self.inner
    }

    /// The candidate underneath, as a value.
    pub closed spec fn inner_view(&self) -> crate::sqlite_authority::SqliteAuthoritativeCandidateAdapterView {
        self.inner@
    }

    /// The candidate id.
    pub fn candidate_id(&self) -> (r: &'static str)
        ensures
            r@ == SQLITE_AUTHORITATIVE_CANDIDATE_ID@,
    {
        SQLITE_AUTHORITATIVE_CANDIDATE_ID
    }

    /// The candidate version.
    pub fn candidate_version(&self) -> (r: &'static str)
        ensures
            r@ == SQLITE_SCOPED_PRECONDITION_CANDIDATE_VERSION@,
    {
        SQLITE_SCOPED_PRECONDITION_CANDIDATE_VERSION
    }

    /// The merge a scoped command makes onto the latest committed authority:
    /// its preconditions must hold there, then its write-set is applied.
    pub fn merge_scoped_command(
        latest: &CurrentContractState,
        command: &SqliteScopedCommand,
        rules: &ContractRules,
        readings: &Vec<TranscriptReading>,
    ) -> (r: Result<CurrentContractState, SqliteAuthorityError>)
        ensures
            state_result_view(r) == match scoped_preconditions_spec(latest@, command@.scope, command@.preconditions) {
                Err(e) => Err(e),
                Ok(_) => apply_onto_spec(command@, latest@, rules@, vec_view(readings@)),
            },
    {
        match validate_scoped_preconditions(latest, command.scope, &command.preconditions) {
            Err(e) => Err(e),
            Ok(()) => command.apply_onto(latest, rules, readings),
        }
    }
}

/// Refuses a caller-supplied full state that would rewind either authority
/// head, or drop the active analysis snapshot.
pub fn reject_full_state_authority_replace(
    current: &CurrentContractState,
    proposed: &CurrentContractState,
) -> (r: Result<(), SqliteAuthorityError>)
    ensures
        unit_sqlite_view(r) == full_replace_spec(current@, proposed@),
{
    if proposed.durable_command_tokens.reuse_governance_head < current.durable_command_tokens.reuse_governance_head {
        return Err(
            SqliteAuthorityError::new(
                "stale-full-state-unrelated-rewind",
                "full-state proposal would rewind reuse-governance authority",
            ),
        );
    }
    if proposed.durable_command_tokens.review_ledger_head < current.durable_command_tokens.review_ledger_head {
        return Err(
            SqliteAuthorityError::new(
                "stale-full-state-unrelated-rewind",
                "full-state proposal would rewind review-ledger authority",
            ),
        );
    }
    if !proposed.durable_command_tokens.active_analysis_snapshot_identity.same_as(
        &current.durable_command_tokens.active_analysis_snapshot_identity,
    ) && !snapshot_listed(&proposed.analysis_snapshots, &current.durable_command_tokens.active_analysis_snapshot_identity) {
        return Err(
            SqliteAuthorityError::new(
                "stale-full-state-unrelated-rewind",
                "full-state proposal would rewind active-analysis authority",
            ),
        );
    }
    Ok(())
}

/// Refuses a full-state proposal that would rewind either authority head or
/// drop the active analysis snapshot.
pub open spec fn full_replace_spec(current: CurrentContractStateView, proposed: CurrentContractStateView) -> Result<
    (),
    SqliteAuthorityErrorView,
> {
    if proposed.durable_command_tokens.reuse_governance_head < current.durable_command_tokens.reuse_governance_head {
        Err(
            sqlite_error(
                "stale-full-state-unrelated-rewind"@,
                "full-state proposal would rewind reuse-governance authority"@,
            ),
        )
    } else if proposed.durable_command_tokens.review_ledger_head < current.durable_command_tokens.review_ledger_head {
        Err(
            sqlite_error(
                "stale-full-state-unrelated-rewind"@,
                "full-state proposal would rewind review-ledger authority"@,
            ),
        )
    } else if proposed.durable_command_tokens.active_analysis_snapshot_identity
        != current.durable_command_tokens.active_analysis_snapshot_identity && !has_snapshot_identity(
        proposed.analysis_snapshots,
        current.durable_command_tokens.active_analysis_snapshot_identity,
    ) {
        Err(
            sqlite_error(
                "stale-full-state-unrelated-rewind"@,
                "full-state proposal would rewind active-analysis authority"@,
            ),
        )
    } else {
        Ok(())
    }
}

/// The scope a stale-command scenario exercises.
pub open spec fn stale_scenario_scope_spec(id: Seq<char>) -> Option<SqliteCommandScope> {
    if id == "stale-review-ledger-command"@ {
        Some(SqliteCommandScope::ReviewLedger)
    } else if id == "stale-reuse-governance-command"@ {
        Some(SqliteCommandScope::ReuseGovernance)
    } else if id == "stale-analysis-attachment-or-selection"@ {
        Some(SqliteCommandScope::ActiveAnalysis)
    } else {
        None
    }
}

/// The scope a stale-command scenario exercises.
pub fn command_scope_for_stale_scenario(scenario_id: &str) -> (r: Option<SqliteCommandScope>)
    ensures
        r == stale_scenario_scope_spec(scenario_id@),
{
    if crate::text::str_eq(scenario_id, "stale-review-ledger-command") {
        Some(SqliteCommandScope::ReviewLedger)
    } else if crate::text::str_eq(scenario_id, "stale-reuse-governance-command") {
        Some(SqliteCommandScope::ReuseGovernance)
    } else if crate::text::str_eq(scenario_id, "stale-analysis-attachment-or-selection") {
        Some(SqliteCommandScope::ActiveAnalysis)
    } else {
        None
    }
}

/// The scope a measured operation writes.
pub open spec fn operation_scope_spec(op: Seq<char>) -> Option<SqliteCommandScope> {
    if op == "append_review_decision"@ || op == "append_manual_replacement"@ {
        Some(SqliteCommandScope::ReviewLedger)
    } else if op == "append_reusable_promotion"@ || op == "append_reusable_revocation"@ || op
        == "append_reusable_supersession"@ {
        Some(SqliteCommandScope::ReuseGovernance)
    } else {
        None
    }
}

/// The scope a measured operation writes.
pub fn command_scope_for_measurement_operation(operation: &str) -> (r: Option<SqliteCommandScope>)
    ensures
        r == operation_scope_spec(operation@),
{
    if crate::text::str_eq(operation, "append_review_decision") || crate::text::str_eq(
        operation,
        "append_manual_replacement",
    ) {
        Some(SqliteCommandScope::ReviewLedger)
    } else if crate::text::str_eq(operation, "append_reusable_promotion") || crate::text::str_eq(
        operation,
        "append_reusable_revocation",
    ) || crate::text::str_eq(operation, "append_reusable_supersession") {
        Some(SqliteCommandScope::ReuseGovernance)
    } else {
        None
    }
}

/// A transition gets a scope exactly when it changes one write-set, and the
/// scope names that write-set.
pub proof fn law_infer_scope_names_the_single_change(p: CurrentContractStateView, t: CurrentContractStateView)
    ensures
        infer_scope_spec(p, t) == Ok::<SqliteCommandScope, SqliteAuthorityErrorView>(SqliteCommandScope::ReviewLedger)
            <==> (review_changed(p, t) && !reuse_changed(p, t) && !analysis_changed(p, t)),
        infer_scope_spec(p, t) == Ok::<SqliteCommandScope, SqliteAuthorityErrorView>(SqliteCommandScope::ReuseGovernance)
            <==> (!review_changed(p, t) && reuse_changed(p, t) && !analysis_changed(p, t)),
        infer_scope_spec(p, t) == Ok::<SqliteCommandScope, SqliteAuthorityErrorView>(SqliteCommandScope::ActiveAnalysis)
            <==> (!review_changed(p, t) && !reuse_changed(p, t) && analysis_changed(p, t)),
{
}

/// Preconditions taken from a state hold on that same state, in every scope.
pub proof fn law_fresh_preconditions_hold(s: CurrentContractStateView, scope: SqliteCommandScope)
    ensures
        scoped_preconditions_spec(s, scope, preconditions_of(s)) is Ok,
{
}

/// Once another command has moved the head of a scope, a command prepared
/// before it in that scope is refused as stale.
pub proof fn law_stale_preconditions_refused(
    prepared: CurrentContractStateView,
    current: CurrentContractStateView,
    scope: SqliteCommandScope,
)
    requires
        match scope {
            SqliteCommandScope::ReviewLedger => review_changed(prepared, current),
            SqliteCommandScope::ReuseGovernance => reuse_changed(prepared, current),
            SqliteCommandScope::ActiveAnalysis => analysis_changed(prepared, current),
        },
    ensures
        scoped_preconditions_spec(current, scope, preconditions_of(prepared)) is Err,
{
}

} // verus!
