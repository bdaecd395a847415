use vstd::prelude::*;
use crate::append_authority::{
    append_error, canonicalized_view, state_violations_spec, validate_state, AppendAuthoritativeCandidateAdapter,
    AppendAuthorityError, AppendAuthorityErrorView, APPEND_AUTHORITATIVE_CANDIDATE_ID,
};
use crate::derivation::{finalize_derived_fields, finalized_view, TranscriptReading, TranscriptReadingView};
use crate::model::{
    normalize_view, vec_duplicate, vec_view, opt_duplicate, canonical_projection_view, CurrentContractState,
    CurrentContractStateView, EvidenceDurableCommandTokensView, SameAs,
};
use crate::oracle::{canonical_fingerprint, canonical_fingerprint_spec};
use crate::production_bridge::{ContractRules, ContractRulesView};
use crate::text::decimal_spec;

verus! {

/// The version of the scoped-precondition append candidate.
pub const APPEND_SCOPED_PRECONDITION_CANDIDATE_VERSION: &'static str = "01B-3";

/// The one write-set an authoritative command changes.
#[derive(Debug, Clone, Copy, PartialEq, Eq, Structural)]
pub enum AppendCommandScope {
    ReviewLedger,
    ReuseGovernance,
    ActiveAnalysis,
}

/// The authority heads a command was prepared against.
pub struct AppendScopedPreconditions {
    pub review_ledger_head: usize,
    pub reuse_governance_head: usize,
    pub active_analysis_snapshot_identity: String,
}

/// The mathematical value of an [`AppendScopedPreconditions`].
pub struct AppendScopedPreconditionsView {
    pub review_ledger_head: usize,
    pub reuse_governance_head: usize,
    pub active_analysis_snapshot_identity: Seq<char>,
}

impl View for AppendScopedPreconditions {
    type V = AppendScopedPreconditionsView;

    open spec fn view(&self) -> AppendScopedPreconditionsView {
        AppendScopedPreconditionsView {
            review_ledger_head: self.review_ledger_head,
            reuse_governance_head: self.reuse_governance_head,
            active_analysis_snapshot_identity: self.active_analysis_snapshot_identity@,
        }
    }
}

impl Clone for AppendScopedPreconditions {
    fn clone(&self) -> (r: Self)
        ensures
            r@ == self@,
    {
        AppendScopedPreconditions {
            review_ledger_head: self.review_ledger_head,
            reuse_governance_head: self.reuse_governance_head,
            active_analysis_snapshot_identity: self.active_analysis_snapshot_identity.clone(),
        }
    }
}

/// The heads of a state's authority, as a command prepared against it records them.
pub open spec fn preconditions_of(s: CurrentContractStateView) -> AppendScopedPreconditionsView {
    AppendScopedPreconditionsView {
        review_ledger_head: s.durable_command_tokens.review_ledger_head,
        reuse_governance_head: s.durable_command_tokens.reuse_governance_head,
        active_analysis_snapshot_identity: s.durable_command_tokens.active_analysis_snapshot_identity,
    }
}

impl AppendScopedPreconditions {
    /// The heads of the authority a command is prepared against.
    pub fn from_authority_at_command_prepare(state: &CurrentContractState) -> (r: Self)
        ensures
            r@ == preconditions_of(state@),
    {
        AppendScopedPreconditions {
            review_ledger_head: state.durable_command_tokens.review_ledger_head,
            reuse_governance_head: state.durable_command_tokens.reuse_governance_head,
            active_analysis_snapshot_identity: state.durable_command_tokens.active_analysis_snapshot_identity.clone(),
        }
    }
}

/// A command that moves one write-set of the authority from a precursor state to a target state.
pub struct AppendScopedCommand {
    pub scope: AppendCommandScope,
    pub preconditions: AppendScopedPreconditions,
    precursor: CurrentContractState,
    target: CurrentContractState,
}

/// The mathematical value of an [`AppendScopedCommand`].
pub struct AppendScopedCommandView {
    pub scope: AppendCommandScope,
    pub preconditions: AppendScopedPreconditionsView,
    pub precursor: CurrentContractStateView,
    pub target: CurrentContractStateView,
}

impl View for AppendScopedCommand {
    type V = AppendScopedCommandView;

    closed spec fn view(&self) -> AppendScopedCommandView {
        AppendScopedCommandView {
            scope: self.scope,
            preconditions: self.preconditions@,
            precursor: self.precursor@,
            target: self.target@,
        }
    }
}

impl AppendScopedCommand {
    /// The command of a transition, prepared against its precursor.
    pub fn from_transition_pair(
        scope: AppendCommandScope,
        precursor: &CurrentContractState,
        target: &CurrentContractState,
    ) -> (r: Self)
        ensures
            r@ == (AppendScopedCommandView {
                scope,
                preconditions: preconditions_of(precursor@),
                precursor: precursor@,
                target: target@,
            }),
    {
        AppendScopedCommand {
            scope,
            preconditions: AppendScopedPreconditions::from_authority_at_command_prepare(precursor),
            precursor: precursor.clone(),
            target: target.clone(),
        }
    }

    /// The state the command was prepared against.
    pub fn precursor(&self) -> (r: &CurrentContractState)
        ensures
            r@ == self@.precursor,
    {
        &self.precursor
    }

    /// The state the command leads to.
    pub fn target(&self) -> (r: &CurrentContractState)
        ensures
            r@ == self@.target,
    {
        &self.target
    }

    /// Applies the command's write-set onto the current authority.
    pub fn apply_onto(
        &self,
        current: &CurrentContractState,
        rules: &ContractRules,
        readings: &Vec<TranscriptReading>,
    ) -> (r: Result<CurrentContractState, AppendAuthorityError>)
        ensures
            state_result_view(r) == apply_onto_spec(self@, current@, rules@, vec_view(readings@)),
    {
        match reject_stale_full_state_rewind(current, self.scope, &self.precursor, &self.target) {
            Err(e) => {
                return Err(e);
            },
            Ok(()) => {},
        }
        let mut result = current.clone();
        match self.scope {
            AppendCommandScope::ReviewLedger => {
                result.review_ledger_events = vec_duplicate(&self.target.review_ledger_events);
                result.effective_review_status = vec_duplicate(&self.target.effective_review_status);
                result.durable_command_tokens.review_ledger_head = self.target.durable_command_tokens.review_ledger_head;
            },
            AppendCommandScope::ReuseGovernance => {
                result.reuse_governance_events = vec_duplicate(&self.target.reuse_governance_events);
                result.effective_reusable_records = vec_duplicate(&self.target.effective_reusable_records);
                result.historical_reusable_records = vec_duplicate(&self.target.historical_reusable_records);
                result.reusable_snapshot_identity = self.target.reusable_snapshot_identity.clone();
                result.reuse_enabled_analysis_binding = opt_duplicate(&self.target.reuse_enabled_analysis_binding);
                result.durable_command_tokens.reuse_governance_head =
                    self.target.durable_command_tokens.reuse_governance_head;
            },
            AppendCommandScope::ActiveAnalysis => {
                result.analysis_snapshots = vec_duplicate(&self.target.analysis_snapshots);
                result.durable_command_tokens.active_analysis_snapshot_identity =
                    self.target.durable_command_tokens.active_analysis_snapshot_identity.clone();
            },
        }
        proof {
            assert(result@ == scope_patch_view(self@.scope, current@, self@.target));
        }
        finalize_and_validate(&mut result, rules, readings)
    }
}

/// The result of a state-producing step, as a value.
pub open spec fn state_result_view(r: Result<CurrentContractState, AppendAuthorityError>) -> Result<
    CurrentContractStateView,
    AppendAuthorityErrorView,
> {
    match r {
        Ok(s) => Ok(s@),
        Err(e) => Err(e@),
    }
}

/// The result of a check, as a value.
pub open spec fn unit_append_view(r: Result<(), AppendAuthorityError>) -> Result<(), AppendAuthorityErrorView> {
    match r {
        Ok(_) => Ok(()),
        Err(e) => Err(e@),
    }
}

/// The review-ledger head moved between the two states.
pub open spec fn review_changed(p: CurrentContractStateView, t: CurrentContractStateView) -> bool {
    p.durable_command_tokens.review_ledger_head != t.durable_command_tokens.review_ledger_head
}

/// The reuse-governance head moved between the two states.
pub open spec fn reuse_changed(p: CurrentContractStateView, t: CurrentContractStateView) -> bool {
    p.durable_command_tokens.reuse_governance_head != t.durable_command_tokens.reuse_governance_head
}

/// The active analysis selection changed between the two states.
pub open spec fn analysis_changed(p: CurrentContractStateView, t: CurrentContractStateView) -> bool {
    p.durable_command_tokens.active_analysis_snapshot_identity != t.durable_command_tokens.active_analysis_snapshot_identity
}

/// The scope of the one write-set a transition changes; refused where it
/// changes none or more than one.
pub open spec fn infer_scope_spec(p: CurrentContractStateView, t: CurrentContractStateView) -> Result<
    AppendCommandScope,
    AppendAuthorityErrorView,
> {
    let r = review_changed(p, t);
    let u = reuse_changed(p, t);
    let a = analysis_changed(p, t);
    if r && !u && !a {
        Ok(AppendCommandScope::ReviewLedger)
    } else if !r && u && !a {
        Ok(AppendCommandScope::ReuseGovernance)
    } else if !r && !u && a {
        Ok(AppendCommandScope::ActiveAnalysis)
    } else {
        Err(append_error("ambiguous-scoped-command"@, "transition must change exactly one scoped write-set"@))
    }
}

/// The scope of the one write-set a transition changes.
pub fn infer_command_scope(precursor: &CurrentContractState, target: &CurrentContractState) -> (r: Result<
    AppendCommandScope,
    AppendAuthorityError,
>)
    ensures
        append_result_view_scope(r) == infer_scope_spec(precursor@, target@),
{
    let review = precursor.durable_command_tokens.review_ledger_head != target.durable_command_tokens.review_ledger_head;
    let reuse = precursor.durable_command_tokens.reuse_governance_head
        != target.durable_command_tokens.reuse_governance_head;
    let analysis = !precursor.durable_command_tokens.active_analysis_snapshot_identity.same_as(
        &target.durable_command_tokens.active_analysis_snapshot_identity,
    );
    if review && !reuse && !analysis {
        Ok(AppendCommandScope::ReviewLedger)
    } else if !review && reuse && !analysis {
        Ok(AppendCommandScope::ReuseGovernance)
    } else if !review && !reuse && analysis {
        Ok(AppendCommandScope::ActiveAnalysis)
    } else {
        Err(AppendAuthorityError::new("ambiguous-scoped-command", "transition must change exactly one scoped write-set"))
    }
}

/// The result of a scope inference, as a value.
pub open spec fn append_result_view_scope(r: Result<AppendCommandScope, AppendAuthorityError>) -> Result<
    AppendCommandScope,
    AppendAuthorityErrorView,
> {
    match r {
        Ok(s) => Ok(s),
        Err(e) => Err(e@),
    }
}

/// Whether the current authority still has the head the command was prepared
/// against, in the command's own scope.
pub open spec fn scoped_preconditions_spec(
    current: CurrentContractStateView,
    scope: AppendCommandScope,
    pre: AppendScopedPreconditionsView,
) -> Result<(), AppendAuthorityErrorView> {
    let tokens = current.durable_command_tokens;
    match scope {
        AppendCommandScope::ReviewLedger => if tokens.review_ledger_head != pre.review_ledger_head {
            Err(append_error("stale-review-ledger-precondition"@, "review-ledger head precondition is stale"@))
        } else {
            Ok(())
        },
        AppendCommandScope::ReuseGovernance => if tokens.reuse_governance_head != pre.reuse_governance_head {
            Err(append_error("stale-reuse-governance-precondition"@, "reuse-governance head precondition is stale"@))
        } else {
            Ok(())
        },
        AppendCommandScope::ActiveAnalysis => if tokens.active_analysis_snapshot_identity
            != pre.active_analysis_snapshot_identity {
            Err(
                append_error(
                    "stale-analysis-selection-precondition"@,
                    "active analysis selection precondition is stale"@,
                ),
            )
        } else {
            Ok(())
        },
    }
}

/// Refuses a command whose prepared head in its own scope is stale.
pub fn validate_scoped_preconditions(
    current: &CurrentContractState,
    scope: AppendCommandScope,
    preconditions: &AppendScopedPreconditions,
) -> (r: Result<(), AppendAuthorityError>)
    ensures
        unit_append_view(r) == scoped_preconditions_spec(current@, scope, preconditions@),
{
    match scope {
        AppendCommandScope::ReviewLedger => {
            if current.durable_command_tokens.review_ledger_head != preconditions.review_ledger_head {
                return Err(
                    AppendAuthorityError::new(
                        "stale-review-ledger-precondition",
                        "review-ledger head precondition is stale",
                    ),
                );
            }
        },
        AppendCommandScope::ReuseGovernance => {
            if current.durable_command_tokens.reuse_governance_head != preconditions.reuse_governance_head {
                return Err(
                    AppendAuthorityError::new(
                        "stale-reuse-governance-precondition",
                        "reuse-governance head precondition is stale",
                    ),
                );
            }
        },
        AppendCommandScope::ActiveAnalysis => {
            if !current.durable_command_tokens.active_analysis_snapshot_identity.same_as(
                &preconditions.active_analysis_snapshot_identity,
            ) {
                return Err(
                    AppendAuthorityError::new(
                        "stale-analysis-selection-precondition",
                        "active analysis selection precondition is stale",
                    ),
                );
            }
        },
    }
    Ok(())
}

/// Refuses a target that would rewind authority outside the command's scope
/// that has advanced since the command was prepared.
pub open spec fn stale_rewind_spec(
    current: CurrentContractStateView,
    scope: AppendCommandScope,
    precursor: CurrentContractStateView,
    target: CurrentContractStateView,
) -> Result<(), AppendAuthorityErrorView> {
    let c = current.durable_command_tokens;
    let p = precursor.durable_command_tokens;
    let t = target.durable_command_tokens;
    if scope != AppendCommandScope::ReviewLedger && c.reuse_governance_head > p.reuse_governance_head
        && t.reuse_governance_head == p.reuse_governance_head {
        Err(
            append_error(
                "stale-full-state-unrelated-rewind"@,
                "command target would rewind unrelated reuse-governance authority"@,
            ),
        )
    } else if scope != AppendCommandScope::ReuseGovernance && c.review_ledger_head > p.review_ledger_head
        && t.review_ledger_head == p.review_ledger_head {
        Err(
            append_error(
                "stale-full-state-unrelated-rewind"@,
                "command target would rewind unrelated review-ledger authority"@,
            ),
        )
    } else {
        Ok(())
    }
}

fn reject_stale_full_state_rewind(
    current: &CurrentContractState,
    scope: AppendCommandScope,
    precursor: &CurrentContractState,
    target: &CurrentContractState,
) -> (r: Result<(), AppendAuthorityError>)
    ensures
        unit_append_view(r) == stale_rewind_spec(current@, scope, precursor@, target@),
{
    let c = &current.durable_command_tokens;
    let p = &precursor.durable_command_tokens;
    let t = &target.durable_command_tokens;
    if scope != AppendCommandScope::ReviewLedger && c.reuse_governance_head > p.reuse_governance_head
        && t.reuse_governance_head == p.reuse_governance_head {
        return Err(
            AppendAuthorityError::new(
                "stale-full-state-unrelated-rewind",
                "command target would rewind unrelated reuse-governance authority",
            ),
        );
    }
    if scope != AppendCommandScope::ReuseGovernance && c.review_ledger_head > p.review_ledger_head
        && t.review_ledger_head == p.review_ledger_head {
        return Err(
            AppendAuthorityError::new(
                "stale-full-state-unrelated-rewind",
                "command target would rewind unrelated review-ledger authority",
            ),
        );
    }
    Ok(())
}

/// The current state with the command's write-set taken from the target.
pub open spec fn scope_patch_view(
    scope: AppendCommandScope,
    current: CurrentContractStateView,
    target: CurrentContractStateView,
) -> CurrentContractStateView {
    let tokens = current.durable_command_tokens;
    match scope {
        AppendCommandScope::ReviewLedger => CurrentContractStateView {
            review_ledger_events: target.review_ledger_events,
            effective_review_status: target.effective_review_status,
            durable_command_tokens: EvidenceDurableCommandTokensView {
                review_ledger_head: target.durable_command_tokens.review_ledger_head,
                ..tokens
            },
            ..current
        },
        AppendCommandScope::ReuseGovernance => CurrentContractStateView {
            reuse_governance_events: target.reuse_governance_events,
            effective_reusable_records: target.effective_reusable_records,
            historical_reusable_records: target.historical_reusable_records,
            reusable_snapshot_identity: target.reusable_snapshot_identity,
            reuse_enabled_analysis_binding: target.reuse_enabled_analysis_binding,
            durable_command_tokens: EvidenceDurableCommandTokensView {
                reuse_governance_head: target.durable_command_tokens.reuse_governance_head,
                ..tokens
            },
            ..current
        },
        AppendCommandScope::ActiveAnalysis => CurrentContractStateView {
            analysis_snapshots: target.analysis_snapshots,
            durable_command_tokens: EvidenceDurableCommandTokensView {
                active_analysis_snapshot_identity: target.durable_command_tokens.active_analysis_snapshot_identity,
                ..tokens
            },
            ..current
        },
    }
}

/// A patched state with its derived fields rebuilt and normalized, if the oracle accepts it.
pub open spec fn finalize_and_validate_spec(
    s: CurrentContractStateView,
    rules: ContractRulesView,
    readings: Seq<TranscriptReadingView>,
) -> Result<CurrentContractStateView, AppendAuthorityErrorView> {
    let normalized = normalize_view(finalized_view(s, rules, readings));
    let found = state_violations_spec(normalized, rules, readings);
    if found.len() == 0 {
        Ok(normalized)
    } else {
        Err(
            append_error(
                "current-contract-oracle-rejected"@,
                decimal_spec(found.len()) + " oracle violations"@,
            ),
        )
    }
}

fn finalize_and_validate(
    state: &mut CurrentContractState,
    rules: &ContractRules,
    readings: &Vec<TranscriptReading>,
) -> (r: Result<CurrentContractState, AppendAuthorityError>)
    ensures
        final(state)@ == finalized_view(old(state)@, rules@, vec_view(readings@)),
        state_result_view(r) == finalize_and_validate_spec(old(state)@, rules@, vec_view(readings@)),
{
    finalize_derived_fields(state, rules, readings);
    let normalized = state.clone().normalize();
    match validate_state(&normalized, rules, readings) {
        Err(e) => Err(e),
        Ok(()) => Ok(normalized),
    }
}

/// What applying a command onto the current authority gives: refused where
/// it would rewind advanced authority outside its scope, otherwise the
/// patched, rebuilt and validated state.
pub open spec fn apply_onto_spec(
    c: AppendScopedCommandView,
    current: CurrentContractStateView,
    rules: ContractRulesView,
    readings: Seq<TranscriptReadingView>,
) -> Result<CurrentContractStateView, AppendAuthorityErrorView> {
    match stale_rewind_spec(current, c.scope, c.precursor, c.target) {
        Err(e) => Err(e),
        Ok(_) => finalize_and_validate_spec(scope_patch_view(c.scope, current, c.target), rules, readings),
    }
}

/// What a scoped apply writes next: the new state and its fingerprint, and
/// whether the manifest checkpoint must first be brought up to the log.
pub struct ScopedApplyPlan {
    pub next_state: CurrentContractState,
    pub canonical_fingerprint: String,
    pub repair_manifest: bool,
}

/// The decisions of a scoped apply over replayed authority.
pub open spec fn scoped_apply_spec(
    writable: bool,
    manifest_sequence: u64,
    committed_sequence: u64,
    session_id: Seq<char>,
    current: CurrentContractStateView,
    c: AppendScopedCommandView,
    fingerprints: Seq<Seq<char>>,
    rules: ContractRulesView,
    readings: Seq<TranscriptReadingView>,
) -> Result<(CurrentContractStateView, Seq<char>, bool), AppendAuthorityErrorView> {
    if !writable {
        Err(append_error("not-authoritative-writer"@, "scoped command apply requires a writable open"@))
    } else if manifest_sequence > committed_sequence {
        Err(
            append_error(
                "manifest-ahead-of-append-authority"@,
                "manifest claims an uncommitted authoritative boundary"@,
            ),
        )
    } else {
        match scoped_preconditions_spec(current, c.scope, c.preconditions) {
            Err(e) => Err(e),
            Ok(_) => match apply_onto_spec(c, current, rules, readings) {
                Err(e) => Err(e),
                Ok(next) => {
                    let found = state_violations_spec(next, rules, readings);
                    if found.len() != 0 {
                        Err(
                            append_error(
                                "current-contract-oracle-rejected"@,
                                decimal_spec(found.len()) + " oracle violations"@,
                            ),
                        )
                    } else if next.session_id != session_id {
                        Err(
                            append_error(
                                "session-identity-transition"@,
                                "scoped command cannot change the session identity"@,
                            ),
                        )
                    } else {
                        let fp = canonical_fingerprint_spec(canonical_projection_view(next));
                        if fingerprints.contains(fp) {
                            Err(
                                append_error(
                                    "semantic-duplicate-transition"@,
                                    "a scoped command must add distinct canonical authority"@,
                                ),
                            )
                        } else {
                            Ok((next, fp, manifest_sequence < committed_sequence))
                        }
                    }
                },
            },
        }
    }
}

/// The result of planning a scoped apply, as a value.
pub open spec fn plan_result_view(r: Result<ScopedApplyPlan, AppendAuthorityError>) -> Result<
    (CurrentContractStateView, Seq<char>, bool),
    AppendAuthorityErrorView,
> {
    match r {
        Ok(p) => Ok((p.next_state@, p.canonical_fingerprint@, p.repair_manifest)),
        Err(e) => Err(e@),
    }
}

fn contains_fingerprint(v: &Vec<String>, x: &String) -> (r: bool)
    ensures
        r == vec_view(v@).contains(x@),
{
    let ghost vv = vec_view(v@);
    let mut k: usize = 0;
    while k < v.len()
        invariant
            k <= v.len(),
            vv == vec_view(v@),
            forall|j: int| 0 <= j < k ==> vv[j] != x@,
        decreases v.len() - k,
    {
        if v[k].same_as(x) {
            proof {
                assert(vv[k as int] == x@);
            }
            return true;
        }
        k = k + 1;
    }
    false
}

/// The candidate that applies scoped commands onto replayed append authority.
pub struct AppendScopedPreconditionCandidateAdapter {
    inner: AppendAuthoritativeCandidateAdapter,
}

impl AppendScopedPreconditionCandidateAdapter {
    /// The scoped candidate over an append candidate.
    pub fn new(inner: AppendAuthoritativeCandidateAdapter) -> (r: Self)
        ensures
            r.inner_view() == inner@,
    {
        AppendScopedPreconditionCandidateAdapter { inner }
    }

    /// The append candidate underneath.
    pub fn inner(&self) -> (r: &AppendAuthoritativeCandidateAdapter)
        ensures
            r@ == self.inner_view(),
    {
        &self.inner
    }

    /// The candidate underneath, as a value.
    pub closed spec fn inner_view(&self) -> crate::append_authority::AppendAuthoritativeCandidateAdapterView {
        self.inner@
    }

    /// The candidate id.
    pub fn candidate_id(&self) -> (r: &'static str)
        ensures
            r@ == APPEND_AUTHORITATIVE_CANDIDATE_ID@,
    {
        APPEND_AUTHORITATIVE_CANDIDATE_ID
    }

    /// The candidate version.
    pub fn candidate_version(&self) -> (r: &'static str)
        ensures
            r@ == APPEND_SCOPED_PRECONDITION_CANDIDATE_VERSION@,
    {
        APPEND_SCOPED_PRECONDITION_CANDIDATE_VERSION
    }

    /// Decides a scoped apply over the replayed authority: the open must be
    /// writable and the manifest not ahead of the log; the command's
    /// preconditions must hold; its result must pass the oracle, keep the
    /// session id, and add a new canonical fingerprint.
    #[verifier::spinoff_prover]
    pub fn plan_scoped_apply(
        writable: bool,
        manifest_sequence: u64,
        committed_sequence: u64,
        session_id: &str,
        current: &CurrentContractState,
        command: &AppendScopedCommand,
        fingerprints: &Vec<String>,
        rules: &ContractRules,
        readings: &Vec<TranscriptReading>,
    ) -> (r: Result<ScopedApplyPlan, AppendAuthorityError>)
        ensures
            plan_result_view(r) == scoped_apply_spec(
                writable,
                manifest_sequence,
                committed_sequence,
                session_id@,
                current@,
                command@,
                vec_view(fingerprints@),
                rules@,
                vec_view(readings@),
            ),
    {
        if !writable {
            return Err(
                AppendAuthorityError::new("not-authoritative-writer", "scoped command apply requires a writable open"),
            );
        }
        if manifest_sequence > committed_sequence {
            return Err(
                AppendAuthorityError::new(
                    "manifest-ahead-of-append-authority",
                    "manifest claims an uncommitted authoritative boundary",
                ),
            );
        }
        match validate_scoped_preconditions(current, command.scope, &command.preconditions) {
            Err(e) => {
                return Err(e);
            },
            Ok(()) => {},
        }
        let next_state = match command.apply_onto(current, rules, readings) {
            Err(e) => {
                return Err(e);
            },
            Ok(s) => s,
        };
        match validate_state(&next_state, rules, readings) {
            Err(e) => {
                return Err(e);
            },
            Ok(()) => {},
        }
        if !crate::text::str_eq(next_state.session_id.as_str(), session_id) {
            return Err(
                AppendAuthorityError::new(
                    "session-identity-transition",
                    "scoped command cannot change the session identity",
                ),
            );
        }
        let fingerprint = canonical_fingerprint(&next_state.canonical_projection());
        if contains_fingerprint(fingerprints, &fingerprint) {
            return Err(
                AppendAuthorityError::new(
                    "semantic-duplicate-transition",
                    "a scoped command must add distinct canonical authority",
                ),
            );
        }
        Ok(
            ScopedApplyPlan {
                next_state,
                canonical_fingerprint: fingerprint,
                repair_manifest: manifest_sequence < committed_sequence,
            },
        )
    }

    /// Refuses a caller-supplied full state that would rewind either authority head.
    pub fn reject_full_state_authority_replace(
        current: &CurrentContractState,
        proposed: &CurrentContractState,
    ) -> (r: Result<(), AppendAuthorityError>)
        ensures
            unit_append_view(r) == full_replace_spec(current@, proposed@),
    {
        if proposed.durable_command_tokens.reuse_governance_head < current.durable_command_tokens.reuse_governance_head {
            return Err(
                AppendAuthorityError::new(
                    "stale-full-state-unrelated-rewind",
                    "full-state proposal would rewind reuse-governance authority",
                ),
            );
        }
        if proposed.durable_command_tokens.review_ledger_head < current.durable_command_tokens.review_ledger_head {
            return Err(
                AppendAuthorityError::new(
                    "stale-full-state-unrelated-rewind",
                    "full-state proposal would rewind review-ledger authority",
                ),
            );
        }
        Ok(())
    }
}

/// Refuses a full-state proposal that would rewind either authority head.
pub open spec fn full_replace_spec(current: CurrentContractStateView, proposed: CurrentContractStateView) -> Result<
    (),
    AppendAuthorityErrorView,
> {
    if proposed.durable_command_tokens.reuse_governance_head < current.durable_command_tokens.reuse_governance_head {
        Err(
            append_error(
                "stale-full-state-unrelated-rewind"@,
                "full-state proposal would rewind reuse-governance authority"@,
            ),
        )
    } else if proposed.durable_command_tokens.review_ledger_head < current.durable_command_tokens.review_ledger_head {
        Err(
            append_error(
                "stale-full-state-unrelated-rewind"@,
                "full-state proposal would rewind review-ledger authority"@,
            ),
        )
    } else {
        Ok(())
    }
}

/// A transition gets a scope exactly when it changes one write-set, and the
/// scope names that write-set.
pub proof fn law_infer_scope_names_the_single_change(p: CurrentContractStateView, t: CurrentContractStateView)
    ensures
        infer_scope_spec(p, t) == Ok::<AppendCommandScope, AppendAuthorityErrorView>(AppendCommandScope::ReviewLedger)
            <==> (review_changed(p, t) && !reuse_changed(p, t) && !analysis_changed(p, t)),
        infer_scope_spec(p, t) == Ok::<AppendCommandScope, AppendAuthorityErrorView>(AppendCommandScope::ReuseGovernance)
            <==> (!review_changed(p, t) && reuse_changed(p, t) && !analysis_changed(p, t)),
        infer_scope_spec(p, t) == Ok::<AppendCommandScope, AppendAuthorityErrorView>(AppendCommandScope::ActiveAnalysis)
            <==> (!review_changed(p, t) && !reuse_changed(p, t) && analysis_changed(p, t)),
{
}

/// Preconditions taken from a state hold on that same state, in every scope.
pub proof fn law_fresh_preconditions_hold(s: CurrentContractStateView, scope: AppendCommandScope)
    ensures
        scoped_preconditions_spec(s, scope, preconditions_of(s)) is Ok,
{
}

/// Once another command has moved the head of a scope, a command prepared
/// before it in that scope is refused as stale.
pub proof fn law_stale_preconditions_refused(
    prepared: CurrentContractStateView,
    current: CurrentContractStateView,
    scope: AppendCommandScope,
)
    requires
        match scope {
            AppendCommandScope::ReviewLedger => review_changed(prepared, current),
            AppendCommandScope::ReuseGovernance => reuse_changed(prepared, current),
            AppendCommandScope::ActiveAnalysis => analysis_changed(prepared, current),
        },
    ensures
        scoped_preconditions_spec(current, scope, preconditions_of(prepared)) is Err,
{
}

} // verus!
