use vstd::prelude::*;
use crate::model::{opt_same, opt_duplicate, opt_view, vec_duplicate, vec_same, vec_view, SameAs};
use crate::text::{concat2, concat3, decimal, decimal_spec, is_blank, is_blank_spec, str_eq};

verus! {

/// The version of the earlier scenario catalog.
pub const SCENARIO_CONTRACT_VERSION_V3: &'static str = "3";

/// The version of the current scenario catalog.
pub const SCENARIO_CONTRACT_VERSION: &'static str = "4";

/// Whether every candidate must pass a scenario, or only those with a capability.
#[derive(Debug, Clone, Copy, PartialEq, Eq, Structural)]
pub enum ScenarioRequirementLevel {
    Required,
    CapabilityDependent,
}

/// Where a scenario injects its fault.
#[derive(Debug, Clone, Copy, PartialEq, Eq, Structural)]
pub enum FaultLayer {
    NoFault,
    LogicalReturnedError,
    MultiProcessConcurrency,
    InProcessPanic,
    ChildProcessAbortOrKill,
    ProcessCrashRecovery,
    OsCrash,
    FilesystemDurability,
    HardwarePowerLoss,
}

/// The recovery a scenario expects after its fault.
#[derive(Debug, Clone, Copy, PartialEq, Eq, Structural)]
pub enum ExpectedRecoveryClass {
    NoRecovery,
    LastCommittedState,
    SafeAutomaticRecovery,
    ManualReviewRequired,
    ReadOnlySalvage,
    Unrecoverable,
    UnsupportedVersion,
}

/// The state in which a scenario expects storage to open.
#[derive(Debug, Clone, Copy, PartialEq, Eq, Structural)]
pub enum ExpectedOpenState {
    Normal,
    UnsupportedVersion,
    ReadOnlySalvage,
    Unrecoverable,
}

/// Whether read-only open is allowed during a scenario.
pub enum ReadOnlyOpenPolicy {
    Forbidden,
    Allowed,
    ConditionallyAllowed { required_condition: String },
}

/// The mathematical value of a [`ReadOnlyOpenPolicy`].
pub enum ReadOnlyOpenPolicyView {
    Forbidden,
    Allowed,
    ConditionallyAllowed { required_condition: Seq<char> },
}

impl View for ReadOnlyOpenPolicy {
    type V = ReadOnlyOpenPolicyView;

    open spec fn view(&self) -> ReadOnlyOpenPolicyView {
        match self {
            ReadOnlyOpenPolicy::Forbidden => ReadOnlyOpenPolicyView::Forbidden,
            ReadOnlyOpenPolicy::Allowed => ReadOnlyOpenPolicyView::Allowed,
            ReadOnlyOpenPolicy::ConditionallyAllowed { required_condition } =>
                ReadOnlyOpenPolicyView::ConditionallyAllowed { required_condition: required_condition@ },
        }
    }
}

impl Clone for ReadOnlyOpenPolicy {
    fn clone(&self) -> (r: Self)
        ensures
            r@ == self@,
    {
        match self {
            ReadOnlyOpenPolicy::Forbidden => ReadOnlyOpenPolicy::Forbidden,
            ReadOnlyOpenPolicy::Allowed => ReadOnlyOpenPolicy::Allowed,
            ReadOnlyOpenPolicy::ConditionallyAllowed { required_condition } =>
                ReadOnlyOpenPolicy::ConditionallyAllowed { required_condition: required_condition.clone() },
        }
    }
}

impl SameAs for ReadOnlyOpenPolicy {
    fn duplicate(&self) -> (r: Self) {
        self.clone()
    }

    fn same_as(&self, other: &Self) -> (r: bool) {
        match (self, other) {
            (ReadOnlyOpenPolicy::Forbidden, ReadOnlyOpenPolicy::Forbidden) => true,
            (ReadOnlyOpenPolicy::Allowed, ReadOnlyOpenPolicy::Allowed) => true,
            (
                ReadOnlyOpenPolicy::ConditionallyAllowed { required_condition: a },
                ReadOnlyOpenPolicy::ConditionallyAllowed { required_condition: b },
            ) => a.same_as(b),
            _ => false,
        }
    }
}

/// One scenario of the contract every persistence candidate is held to.
pub struct ScenarioContractV3 {
    pub scenario_id: String,
    pub scenario_version: u32,
    pub requirement: ScenarioRequirementLevel,
    pub category: String,
    pub preconditions: String,
    pub authoritative_command: String,
    pub fault_point: String,
    pub fault_layer: FaultLayer,
    pub expected_durable_boundary: String,
    pub reopen_required: bool,
    pub expected_recovery_class: ExpectedRecoveryClass,
    pub expected_open_state: ExpectedOpenState,
    pub writable_open: bool,
    pub read_only_open: ReadOnlyOpenPolicy,
    pub oracle_assertions: Vec<String>,
    pub allowed_evidence_strength: Vec<String>,
    pub prohibited_claims: Vec<String>,
    pub platform_requirement: Vec<String>,
    pub capability_requirement: Option<String>,
    pub measurement_fields: Vec<String>,
}

/// The mathematical value of a [`ScenarioContractV3`].
pub struct ScenarioContractV3View {
    pub scenario_id: Seq<char>,
    pub scenario_version: u32,
    pub requirement: ScenarioRequirementLevel,
    pub category: Seq<char>,
    pub preconditions: Seq<char>,
    pub authoritative_command: Seq<char>,
    pub fault_point: Seq<char>,
    pub fault_layer: FaultLayer,
    pub expected_durable_boundary: Seq<char>,
    pub reopen_required: bool,
    pub expected_recovery_class: ExpectedRecoveryClass,
    pub expected_open_state: ExpectedOpenState,
    pub writable_open: bool,
    pub read_only_open: ReadOnlyOpenPolicyView,
    pub oracle_assertions: Seq<Seq<char>>,
    pub allowed_evidence_strength: Seq<Seq<char>>,
    pub prohibited_claims: Seq<Seq<char>>,
    pub platform_requirement: Seq<Seq<char>>,
    pub capability_requirement: Option<Seq<char>>,
    pub measurement_fields: Seq<Seq<char>>,
}

impl View for ScenarioContractV3 {
    type V = ScenarioContractV3View;

    open spec fn view(&self) -> ScenarioContractV3View {
        ScenarioContractV3View {
            scenario_id: self.scenario_id@,
            scenario_version: self.scenario_version,
            requirement: self.requirement,
            category: self.category@,
            preconditions: self.preconditions@,
            authoritative_command: self.authoritative_command@,
            fault_point: self.fault_point@,
            fault_layer: self.fault_layer,
            expected_durable_boundary: self.expected_durable_boundary@,
            reopen_required: self.reopen_required,
            expected_recovery_class: self.expected_recovery_class,
            expected_open_state: self.expected_open_state,
            writable_open: self.writable_open,
            read_only_open: self.read_only_open@,
            oracle_assertions: vec_view(self.oracle_assertions@),
            allowed_evidence_strength: vec_view(self.allowed_evidence_strength@),
            prohibited_claims: vec_view(self.prohibited_claims@),
            platform_requirement: vec_view(self.platform_requirement@),
            capability_requirement: opt_view(self.capability_requirement),
            measurement_fields: vec_view(self.measurement_fields@),
        }
    }
}

impl Clone for ScenarioContractV3 {
    fn clone(&self) -> (r: Self)
        ensures
            r@ == self@,
    {
        ScenarioContractV3 {
            scenario_id: self.scenario_id.clone(),
            scenario_version: self.scenario_version,
            requirement: self.requirement,
            category: self.category.clone(),
            preconditions: self.preconditions.clone(),
            authoritative_command: self.authoritative_command.clone(),
            fault_point: self.fault_point.clone(),
            fault_layer: self.fault_layer,
            expected_durable_boundary: self.expected_durable_boundary.clone(),
            reopen_required: self.reopen_required,
            expected_recovery_class: self.expected_recovery_class,
            expected_open_state: self.expected_open_state,
            writable_open: self.writable_open,
            read_only_open: self.read_only_open.clone(),
            oracle_assertions: vec_duplicate(&self.oracle_assertions),
            allowed_evidence_strength: vec_duplicate(&self.allowed_evidence_strength),
            prohibited_claims: vec_duplicate(&self.prohibited_claims),
            platform_requirement: vec_duplicate(&self.platform_requirement),
            capability_requirement: opt_duplicate(&self.capability_requirement),
            measurement_fields: vec_duplicate(&self.measurement_fields),
        }
    }
}

fn texts0() -> (r: Vec<String>)
    ensures
        vec_view(r@) == Seq::<Seq<char>>::empty(),
{
    let r: Vec<String> = Vec::new();
    proof {
        assert(vec_view(r@) =~= Seq::<Seq<char>>::empty());
    }
    r
}

fn texts1(a: &str) -> (r: Vec<String>)
    ensures
        vec_view(r@) == seq![a@],
{
    let mut r: Vec<String> = Vec::new();
    r.push(String::from_str(a));
    proof {
        assert(vec_view(r@) =~= seq![a@]);
    }
    r
}

fn texts2(a: &str, b: &str) -> (r: Vec<String>)
    ensures
        vec_view(r@) == seq![a@, b@],
{
    let mut r: Vec<String> = Vec::new();
    r.push(String::from_str(a));
    r.push(String::from_str(b));
    proof {
        assert(vec_view(r@) =~= seq![a@, b@]);
    }
    r
}

fn texts3(a: &str, b: &str, c: &str) -> (r: Vec<String>)
    ensures
        vec_view(r@) == seq![a@, b@, c@],
{
    let mut r: Vec<String> = Vec::new();
    r.push(String::from_str(a));
    r.push(String::from_str(b));
    r.push(String::from_str(c));
    proof {
        assert(vec_view(r@) =~= seq![a@, b@, c@]);
    }
    r
}

fn texts4(a: &str, b: &str, c: &str, d: &str) -> (r: Vec<String>)
    ensures
        vec_view(r@) == seq![a@, b@, c@, d@],
{
    let mut r: Vec<String> = Vec::new();
    r.push(String::from_str(a));
    r.push(String::from_str(b));
    r.push(String::from_str(c));
    r.push(String::from_str(d));
    proof {
        assert(vec_view(r@) =~= seq![a@, b@, c@, d@]);
    }
    r
}

/// The `baseline-create-open-close` scenario as the catalog declares it.
pub open spec fn baseline_create_open_close_spec() -> ScenarioContractV3View {
    ScenarioContractV3View {
        scenario_id: "baseline-create-open-close"@,
        scenario_version: 1,
        requirement: ScenarioRequirementLevel::Required,
        category: "baseline"@,
        preconditions: "empty storage; current-contract fixture v3 selected"@,
        authoritative_command: "create_open_close"@,
        fault_point: "none"@,
        fault_layer: FaultLayer::NoFault,
        expected_durable_boundary: "session_created_and_closed_without_partial_authority"@,
        reopen_required: true,
        expected_recovery_class: ExpectedRecoveryClass::NoRecovery,
        expected_open_state: ExpectedOpenState::Normal,
        writable_open: true,
        read_only_open: ReadOnlyOpenPolicyView::Allowed,
        oracle_assertions: seq!["current_contract_oracle_v3.validate"@],
        allowed_evidence_strength: seq!["InterfaceBehavior"@],
        prohibited_claims: Seq::empty(),
        platform_requirement: seq!["macos_native"@, "windows_github_actions"@],
        capability_requirement: None,
        measurement_fields: seq!["scenario_elapsed_ms"@],
    }
}

/// The `append-review-decision` scenario as the catalog declares it.
pub open spec fn append_review_decision_spec() -> ScenarioContractV3View {
    ScenarioContractV3View {
        scenario_id: "append-review-decision"@,
        scenario_version: 1,
        requirement: ScenarioRequirementLevel::Required,
        category: "authoritative_command"@,
        preconditions: "open writable session with pending review case"@,
        authoritative_command: "append_review_decision"@,
        fault_point: "none"@,
        fault_layer: FaultLayer::NoFault,
        expected_durable_boundary: "review_ledger_event_committed"@,
        reopen_required: true,
        expected_recovery_class: ExpectedRecoveryClass::NoRecovery,
        expected_open_state: ExpectedOpenState::Normal,
        writable_open: true,
        read_only_open: ReadOnlyOpenPolicyView::Allowed,
        oracle_assertions: seq!["current_contract_oracle_v3.compare"@],
        allowed_evidence_strength: seq!["LogicalStateTransition"@],
        prohibited_claims: Seq::empty(),
        platform_requirement: seq!["macos_native"@, "windows_github_actions"@],
        capability_requirement: None,
        measurement_fields: seq!["scenario_elapsed_ms"@],
    }
}

/// The `append-manual-replacement` scenario as the catalog declares it.
pub open spec fn append_manual_replacement_spec() -> ScenarioContractV3View {
    ScenarioContractV3View {
        scenario_id: "append-manual-replacement"@,
        scenario_version: 1,
        requirement: ScenarioRequirementLevel::Required,
        category: "authoritative_command"@,
        preconditions: "MD-017 manual replacement fixture loaded"@,
        authoritative_command: "append_manual_replacement"@,
        fault_point: "none"@,
        fault_layer: FaultLayer::NoFault,
        expected_durable_boundary: "manual_replacement_bytes_committed"@,
        reopen_required: true,
        expected_recovery_class: ExpectedRecoveryClass::NoRecovery,
        expected_open_state: ExpectedOpenState::Normal,
        writable_open: true,
        read_only_open: ReadOnlyOpenPolicyView::Allowed,
        oracle_assertions: seq!["current_contract_oracle_v3.compare"@],
        allowed_evidence_strength: seq!["LogicalStateTransition"@],
        prohibited_claims: Seq::empty(),
        platform_requirement: seq!["macos_native"@, "windows_github_actions"@],
        capability_requirement: None,
        measurement_fields: seq!["scenario_elapsed_ms"@],
    }
}

/// The `append-promotion-candidate-rejection` scenario as the catalog declares it.
pub open spec fn append_promotion_candidate_rejection_spec() -> ScenarioContractV3View {
    ScenarioContractV3View {
        scenario_id: "append-promotion-candidate-rejection"@,
        scenario_version: 1,
        requirement: ScenarioRequirementLevel::Required,
        category: "authoritative_command"@,
        preconditions: "candidate_rejected fixture variant"@,
        authoritative_command: "append_promotion_candidate_rejection"@,
        fault_point: "none"@,
        fault_layer: FaultLayer::NoFault,
        expected_durable_boundary: "rejection_identity_committed"@,
        reopen_required: true,
        expected_recovery_class: ExpectedRecoveryClass::NoRecovery,
        expected_open_state: ExpectedOpenState::Normal,
        writable_open: true,
        read_only_open: ReadOnlyOpenPolicyView::Allowed,
        oracle_assertions: seq!["current_contract_oracle_v3.compare"@],
        allowed_evidence_strength: seq!["LogicalStateTransition"@],
        prohibited_claims: Seq::empty(),
        platform_requirement: seq!["macos_native"@, "windows_github_actions"@],
        capability_requirement: None,
        measurement_fields: seq!["scenario_elapsed_ms"@],
    }
}

/// The `append-reusable-promotion` scenario as the catalog declares it.
pub open spec fn append_reusable_promotion_spec() -> ScenarioContractV3View {
    ScenarioContractV3View {
        scenario_id: "append-reusable-promotion"@,
        scenario_version: 1,
        requirement: ScenarioRequirementLevel::Required,
        category: "authoritative_command"@,
        preconditions: "promoted_active fixture variant"@,
        authoritative_command: "append_reusable_promotion"@,
        fault_point: "none"@,
        fault_layer: FaultLayer::NoFault,
        expected_durable_boundary: "promotion_accepted_committed"@,
        reopen_required: true,
        expected_recovery_class: ExpectedRecoveryClass::NoRecovery,
        expected_open_state: ExpectedOpenState::Normal,
        writable_open: true,
        read_only_open: ReadOnlyOpenPolicyView::Allowed,
        oracle_assertions: seq!["current_contract_oracle_v3.compare"@],
        allowed_evidence_strength: seq!["LogicalStateTransition"@],
        prohibited_claims: Seq::empty(),
        platform_requirement: seq!["macos_native"@, "windows_github_actions"@],
        capability_requirement: None,
        measurement_fields: seq!["scenario_elapsed_ms"@],
    }
}

/// The `append-reusable-revocation` scenario as the catalog declares it.
pub open spec fn append_reusable_revocation_spec() -> ScenarioContractV3View {
    ScenarioContractV3View {
        scenario_id: "append-reusable-revocation"@,
        scenario_version: 1,
        requirement: ScenarioRequirementLevel::Required,
        category: "authoritative_command"@,
        preconditions: "revoked_historical fixture variant"@,
        authoritative_command: "append_reusable_revocation"@,
        fault_point: "none"@,
        fault_layer: FaultLayer::NoFault,
        expected_durable_boundary: "revocation_committed"@,
        reopen_required: true,
        expected_recovery_class: ExpectedRecoveryClass::NoRecovery,
        expected_open_state: ExpectedOpenState::Normal,
        writable_open: true,
        read_only_open: ReadOnlyOpenPolicyView::Allowed,
        oracle_assertions: seq!["current_contract_oracle_v3.compare"@],
        allowed_evidence_strength: seq!["LogicalStateTransition"@],
        prohibited_claims: Seq::empty(),
        platform_requirement: seq!["macos_native"@, "windows_github_actions"@],
        capability_requirement: None,
        measurement_fields: seq!["scenario_elapsed_ms"@],
    }
}

/// The `append-reusable-supersession` scenario as the catalog declares it.
pub open spec fn append_reusable_supersession_spec() -> ScenarioContractV3View {
    ScenarioContractV3View {
        scenario_id: "append-reusable-supersession"@,
        scenario_version: 1,
        requirement: ScenarioRequirementLevel::Required,
        category: "authoritative_command"@,
        preconditions: "superseded fixture variant"@,
        authoritative_command: "append_reusable_supersession"@,
        fault_point: "none"@,
        fault_layer: FaultLayer::NoFault,
        expected_durable_boundary: "supersession_batch_committed"@,
        reopen_required: true,
        expected_recovery_class: ExpectedRecoveryClass::NoRecovery,
        expected_open_state: ExpectedOpenState::Normal,
        writable_open: true,
        read_only_open: ReadOnlyOpenPolicyView::Allowed,
        oracle_assertions: seq!["current_contract_oracle_v3.compare"@],
        allowed_evidence_strength: seq!["LogicalStateTransition"@],
        prohibited_claims: Seq::empty(),
        platform_requirement: seq!["macos_native"@, "windows_github_actions"@],
        capability_requirement: None,
        measurement_fields: seq!["scenario_elapsed_ms"@],
    }
}

/// The `stale-review-ledger-command` scenario as the catalog declares it.
pub open spec fn stale_review_ledger_command_spec() -> ScenarioContractV3View {
    ScenarioContractV3View {
        scenario_id: "stale-review-ledger-command"@,
        scenario_version: 2,
        requirement: ScenarioRequirementLevel::Required,
        category: "concurrency"@,
        preconditions: "review command A prepared at S0; competing review command B advances review scope to S1"@,
        authoritative_command: "stale_review_ledger_command"@,
        fault_point: "none"@,
        fault_layer: FaultLayer::LogicalReturnedError,
        expected_durable_boundary: "stale_command_rejected"@,
        reopen_required: true,
        expected_recovery_class: ExpectedRecoveryClass::NoRecovery,
        expected_open_state: ExpectedOpenState::Normal,
        writable_open: true,
        read_only_open: ReadOnlyOpenPolicyView::Allowed,
        oracle_assertions: seq!["current_contract_oracle_v3.validate"@, "persist_reopen_authority_unchanged"@],
        allowed_evidence_strength: seq!["InterfaceBehavior"@],
        prohibited_claims: Seq::empty(),
        platform_requirement: seq!["macos_native"@, "windows_github_actions"@],
        capability_requirement: None,
        measurement_fields: seq!["scenario_elapsed_ms"@],
    }
}

/// The `stale-reuse-governance-command` scenario as the catalog declares it.
pub open spec fn stale_reuse_governance_command_spec() -> ScenarioContractV3View {
    ScenarioContractV3View {
        scenario_id: "stale-reuse-governance-command"@,
        scenario_version: 2,
        requirement: ScenarioRequirementLevel::Required,
        category: "concurrency"@,
        preconditions: "reuse command A prepared at S0; competing reuse command B advances reuse scope to S1"@,
        authoritative_command: "stale_reuse_governance_command"@,
        fault_point: "none"@,
        fault_layer: FaultLayer::LogicalReturnedError,
        expected_durable_boundary: "stale_command_rejected"@,
        reopen_required: true,
        expected_recovery_class: ExpectedRecoveryClass::NoRecovery,
        expected_open_state: ExpectedOpenState::Normal,
        writable_open: true,
        read_only_open: ReadOnlyOpenPolicyView::Allowed,
        oracle_assertions: seq!["current_contract_oracle_v3.validate"@, "persist_reopen_authority_unchanged"@],
        allowed_evidence_strength: seq!["InterfaceBehavior"@],
        prohibited_claims: Seq::empty(),
        platform_requirement: seq!["macos_native"@, "windows_github_actions"@],
        capability_requirement: None,
        measurement_fields: seq!["scenario_elapsed_ms"@],
    }
}

/// The `stale-analysis-attachment-or-selection` scenario as the catalog declares it.
pub open spec fn stale_analysis_attachment_or_selection_spec() -> ScenarioContractV3View {
    ScenarioContractV3View {
        scenario_id: "stale-analysis-attachment-or-selection"@,
        scenario_version: 2,
        requirement: ScenarioRequirementLevel::Required,
        category: "concurrency"@,
        preconditions: "analysis command A prepared at S0; competing analysis command B advances active analysis to S1"@,
        authoritative_command: "stale_analysis_attachment_or_selection"@,
        fault_point: "none"@,
        fault_layer: FaultLayer::LogicalReturnedError,
        expected_durable_boundary: "stale_selection_rejected"@,
        reopen_required: true,
        expected_recovery_class: ExpectedRecoveryClass::NoRecovery,
        expected_open_state: ExpectedOpenState::Normal,
        writable_open: true,
        read_only_open: ReadOnlyOpenPolicyView::Allowed,
        oracle_assertions: seq!["current_contract_oracle_v3.validate"@, "persist_reopen_authority_unchanged"@],
        allowed_evidence_strength: seq!["InterfaceBehavior"@],
        prohibited_claims: Seq::empty(),
        platform_requirement: seq!["macos_native"@, "windows_github_actions"@],
        capability_requirement: None,
        measurement_fields: seq!["scenario_elapsed_ms"@],
    }
}

/// The `unrelated-scope-review-after-reuse-advance` scenario as the catalog declares it.
pub open spec fn unrelated_scope_review_after_reuse_advance_spec() -> ScenarioContractV3View {
    ScenarioContractV3View {
        scenario_id: "unrelated-scope-review-after-reuse-advance"@,
        scenario_version: 1,
        requirement: ScenarioRequirementLevel::Required,
        category: "concurrency"@,
        preconditions: "review command prepared; unrelated reuse-only advance"@,
        authoritative_command: "unrelated_scope_review_after_reuse_advance"@,
        fault_point: "none"@,
        fault_layer: FaultLayer::NoFault,
        expected_durable_boundary: "review_applied_with_unrelated_reuse_authority_preserved"@,
        reopen_required: true,
        expected_recovery_class: ExpectedRecoveryClass::NoRecovery,
        expected_open_state: ExpectedOpenState::Normal,
        writable_open: true,
        read_only_open: ReadOnlyOpenPolicyView::Allowed,
        oracle_assertions: seq!["current_contract_oracle_v3.compare"@, "persist_reopen_authority_unchanged"@],
        allowed_evidence_strength: seq!["LogicalStateTransition"@],
        prohibited_claims: Seq::empty(),
        platform_requirement: seq!["macos_native"@, "windows_github_actions"@],
        capability_requirement: None,
        measurement_fields: seq!["scenario_elapsed_ms"@],
    }
}

/// The `concurrent-writer-attempt` scenario as the catalog declares it.
pub open spec fn concurrent_writer_attempt_spec() -> ScenarioContractV3View {
    ScenarioContractV3View {
        scenario_id: "concurrent-writer-attempt"@,
        scenario_version: 1,
        requirement: ScenarioRequirementLevel::Required,
        category: "concurrency"@,
        preconditions: "one active writer already holds session ownership"@,
        authoritative_command: "concurrent_writer_attempt"@,
        fault_point: "none"@,
        fault_layer: FaultLayer::MultiProcessConcurrency,
        expected_durable_boundary: "second_writer_rejected_or_read_only"@,
        reopen_required: false,
        expected_recovery_class: ExpectedRecoveryClass::NoRecovery,
        expected_open_state: ExpectedOpenState::Normal,
        writable_open: false,
        read_only_open: ReadOnlyOpenPolicyView::Allowed,
        oracle_assertions: seq!["current_contract_oracle_v3.validate"@],
        allowed_evidence_strength: seq!["InterfaceBehavior"@],
        prohibited_claims: seq!["ProcessCrashRecovery"@, "FilesystemDurability"@, "HardwarePowerLoss"@, "OsCrash"@],
        platform_requirement: seq!["macos_native"@, "windows_github_actions"@],
        capability_requirement: None,
        measurement_fields: seq!["scenario_elapsed_ms"@],
    }
}

/// The `writer-crash-and-takeover` scenario as the catalog declares it.
pub open spec fn writer_crash_and_takeover_spec() -> ScenarioContractV3View {
    ScenarioContractV3View {
        scenario_id: "writer-crash-and-takeover"@,
        scenario_version: 1,
        requirement: ScenarioRequirementLevel::Required,
        category: "concurrency"@,
        preconditions: "writer lease expired or child process aborted"@,
        authoritative_command: "writer_crash_and_takeover"@,
        fault_point: "authoritative_command_ack_boundary"@,
        fault_layer: FaultLayer::ChildProcessAbortOrKill,
        expected_durable_boundary: "last_committed_state_preserved"@,
        reopen_required: true,
        expected_recovery_class: ExpectedRecoveryClass::SafeAutomaticRecovery,
        expected_open_state: ExpectedOpenState::Normal,
        writable_open: true,
        read_only_open: ReadOnlyOpenPolicyView::Allowed,
        oracle_assertions: seq!["current_contract_oracle_v3.compare"@],
        allowed_evidence_strength: seq!["InterfaceBehavior"@, "ProcessCrashRecovery"@],
        prohibited_claims: seq!["FilesystemDurability"@, "HardwarePowerLoss"@, "OsCrash"@],
        platform_requirement: seq!["macos_native"@, "windows_github_actions"@],
        capability_requirement: Some("verified_writer_ownership_loss"@),
        measurement_fields: seq!["scenario_elapsed_ms"@],
    }
}

/// The `read-only-open-during-writer` scenario as the catalog declares it.
pub open spec fn read_only_open_during_writer_spec() -> ScenarioContractV3View {
    ScenarioContractV3View {
        scenario_id: "read-only-open-during-writer"@,
        scenario_version: 1,
        requirement: ScenarioRequirementLevel::Required,
        category: "concurrency"@,
        preconditions: "active writer holds exclusive ownership"@,
        authoritative_command: "read_only_open_during_writer"@,
        fault_point: "none"@,
        fault_layer: FaultLayer::MultiProcessConcurrency,
        expected_durable_boundary: "read_only_view_without_write_authority"@,
        reopen_required: false,
        expected_recovery_class: ExpectedRecoveryClass::NoRecovery,
        expected_open_state: ExpectedOpenState::Normal,
        writable_open: false,
        read_only_open: ReadOnlyOpenPolicyView::Allowed,
        oracle_assertions: seq!["current_contract_oracle_v3.validate"@],
        allowed_evidence_strength: seq!["InterfaceBehavior"@],
        prohibited_claims: Seq::empty(),
        platform_requirement: seq!["macos_native"@, "windows_github_actions"@],
        capability_requirement: None,
        measurement_fields: seq!["scenario_elapsed_ms"@],
    }
}

/// The `unknown-newer-format` scenario as the catalog declares it.
pub open spec fn unknown_newer_format_spec() -> ScenarioContractV3View {
    ScenarioContractV3View {
        scenario_id: "unknown-newer-format"@,
        scenario_version: 1,
        requirement: ScenarioRequirementLevel::Required,
        category: "format_compatibility"@,
        preconditions: "storage reports newer unsupported format version"@,
        authoritative_command: "open_unknown_newer_format"@,
        fault_point: "open_boundary"@,
        fault_layer: FaultLayer::LogicalReturnedError,
        expected_durable_boundary: "writable_open_forbidden"@,
        reopen_required: false,
        expected_recovery_class: ExpectedRecoveryClass::UnsupportedVersion,
        expected_open_state: ExpectedOpenState::UnsupportedVersion,
        writable_open: false,
        read_only_open: ReadOnlyOpenPolicyView::ConditionallyAllowed { required_condition: "interpretation_demonstrably_safe"@ },
        oracle_assertions: seq!["current_contract_oracle_v3.validate"@],
        allowed_evidence_strength: seq!["InterfaceBehavior"@],
        prohibited_claims: Seq::empty(),
        platform_requirement: seq!["macos_native"@, "windows_github_actions"@],
        capability_requirement: None,
        measurement_fields: seq!["scenario_elapsed_ms"@],
    }
}

/// The `malformed-format-version` scenario as the catalog declares it.
pub open spec fn malformed_format_version_spec() -> ScenarioContractV3View {
    ScenarioContractV3View {
        scenario_id: "malformed-format-version"@,
        scenario_version: 1,
        requirement: ScenarioRequirementLevel::Required,
        category: "format_compatibility"@,
        preconditions: "malformed format header"@,
        authoritative_command: "open_malformed_format_version"@,
        fault_point: "open_boundary"@,
        fault_layer: FaultLayer::LogicalReturnedError,
        expected_durable_boundary: "open_refused"@,
        reopen_required: false,
        expected_recovery_class: ExpectedRecoveryClass::Unrecoverable,
        expected_open_state: ExpectedOpenState::Unrecoverable,
        writable_open: false,
        read_only_open: ReadOnlyOpenPolicyView::Forbidden,
        oracle_assertions: seq!["current_contract_oracle_v3.validate"@],
        allowed_evidence_strength: seq!["InterfaceBehavior"@],
        prohibited_claims: Seq::empty(),
        platform_requirement: seq!["macos_native"@, "windows_github_actions"@],
        capability_requirement: None,
        measurement_fields: seq!["scenario_elapsed_ms"@],
    }
}

/// The `canonical-reference-corruption` scenario as the catalog declares it.
pub open spec fn canonical_reference_corruption_spec() -> ScenarioContractV3View {
    ScenarioContractV3View {
        scenario_id: "canonical-reference-corruption"@,
        scenario_version: 1,
        requirement: ScenarioRequirementLevel::Required,
        category: "corruption"@,
        preconditions: "canonical referenced payload checksum mismatch"@,
        authoritative_command: "detect_canonical_reference_corruption"@,
        fault_point: "open_boundary"@,
        fault_layer: FaultLayer::LogicalReturnedError,
        expected_durable_boundary: "corruption_detected_before_authority_exposed"@,
        reopen_required: false,
        expected_recovery_class: ExpectedRecoveryClass::ManualReviewRequired,
        expected_open_state: ExpectedOpenState::ReadOnlySalvage,
        writable_open: false,
        read_only_open: ReadOnlyOpenPolicyView::Allowed,
        oracle_assertions: seq!["current_contract_oracle_v3.validate"@],
        allowed_evidence_strength: seq!["InterfaceBehavior"@],
        prohibited_claims: Seq::empty(),
        platform_requirement: seq!["macos_native"@, "windows_github_actions"@],
        capability_requirement: None,
        measurement_fields: seq!["scenario_elapsed_ms"@],
    }
}

/// The `review-ledger-order-corruption` scenario as the catalog declares it.
pub open spec fn review_ledger_order_corruption_spec() -> ScenarioContractV3View {
    ScenarioContractV3View {
        scenario_id: "review-ledger-order-corruption"@,
        scenario_version: 1,
        requirement: ScenarioRequirementLevel::Required,
        category: "corruption"@,
        preconditions: "review ledger event order corrupted"@,
        authoritative_command: "detect_review_ledger_order_corruption"@,
        fault_point: "open_boundary"@,
        fault_layer: FaultLayer::LogicalReturnedError,
        expected_durable_boundary: "corruption_detected_before_authority_exposed"@,
        reopen_required: false,
        expected_recovery_class: ExpectedRecoveryClass::Unrecoverable,
        expected_open_state: ExpectedOpenState::Unrecoverable,
        writable_open: false,
        read_only_open: ReadOnlyOpenPolicyView::Forbidden,
        oracle_assertions: seq!["current_contract_oracle_v3.validate"@],
        allowed_evidence_strength: seq!["InterfaceBehavior"@],
        prohibited_claims: Seq::empty(),
        platform_requirement: seq!["macos_native"@, "windows_github_actions"@],
        capability_requirement: None,
        measurement_fields: seq!["scenario_elapsed_ms"@],
    }
}

/// The `reuse-governance-order-corruption` scenario as the catalog declares it.
pub open spec fn reuse_governance_order_corruption_spec() -> ScenarioContractV3View {
    ScenarioContractV3View {
        scenario_id: "reuse-governance-order-corruption"@,
        scenario_version: 1,
        requirement: ScenarioRequirementLevel::Required,
        category: "corruption"@,
        preconditions: "reuse governance event order corrupted"@,
        authoritative_command: "detect_reuse_governance_order_corruption"@,
        fault_point: "open_boundary"@,
        fault_layer: FaultLayer::LogicalReturnedError,
        expected_durable_boundary: "corruption_detected_before_authority_exposed"@,
        reopen_required: false,
        expected_recovery_class: ExpectedRecoveryClass::Unrecoverable,
        expected_open_state: ExpectedOpenState::Unrecoverable,
        writable_open: false,
        read_only_open: ReadOnlyOpenPolicyView::Forbidden,
        oracle_assertions: seq!["current_contract_oracle_v3.validate"@],
        allowed_evidence_strength: seq!["InterfaceBehavior"@],
        prohibited_claims: Seq::empty(),
        platform_requirement: seq!["macos_native"@, "windows_github_actions"@],
        capability_requirement: None,
        measurement_fields: seq!["scenario_elapsed_ms"@],
    }
}

/// The `source-locator-corruption` scenario as the catalog declares it.
pub open spec fn source_locator_corruption_spec() -> ScenarioContractV3View {
    ScenarioContractV3View {
        scenario_id: "source-locator-corruption"@,
        scenario_version: 1,
        requirement: ScenarioRequirementLevel::Required,
        category: "corruption"@,
        preconditions: "typed source locator field corrupted"@,
        authoritative_command: "detect_source_locator_corruption"@,
        fault_point: "open_boundary"@,
        fault_layer: FaultLayer::LogicalReturnedError,
        expected_durable_boundary: "locator_integrity_failure"@,
        reopen_required: false,
        expected_recovery_class: ExpectedRecoveryClass::ManualReviewRequired,
        expected_open_state: ExpectedOpenState::ReadOnlySalvage,
        writable_open: false,
        read_only_open: ReadOnlyOpenPolicyView::Allowed,
        oracle_assertions: seq!["current_contract_oracle_v3.validate"@],
        allowed_evidence_strength: seq!["InterfaceBehavior"@],
        prohibited_claims: Seq::empty(),
        platform_requirement: seq!["macos_native"@, "windows_github_actions"@],
        capability_requirement: None,
        measurement_fields: seq!["scenario_elapsed_ms"@],
    }
}

/// The `derived-state-corruption-and-rebuild` scenario as the catalog declares it.
pub open spec fn derived_state_corruption_and_rebuild_spec() -> ScenarioContractV3View {
    ScenarioContractV3View {
        scenario_id: "derived-state-corruption-and-rebuild"@,
        scenario_version: 1,
        requirement: ScenarioRequirementLevel::Required,
        category: "corruption"@,
        preconditions: "derived cache corrupted while canonical history intact"@,
        authoritative_command: "rebuild_derived_state"@,
        fault_point: "none"@,
        fault_layer: FaultLayer::NoFault,
        expected_durable_boundary: "derived_state_rebuilt_from_canonical_history"@,
        reopen_required: true,
        expected_recovery_class: ExpectedRecoveryClass::SafeAutomaticRecovery,
        expected_open_state: ExpectedOpenState::Normal,
        writable_open: true,
        read_only_open: ReadOnlyOpenPolicyView::Allowed,
        oracle_assertions: seq!["current_contract_oracle_v3.compare"@],
        allowed_evidence_strength: seq!["InterfaceBehavior"@],
        prohibited_claims: Seq::empty(),
        platform_requirement: seq!["macos_native"@, "windows_github_actions"@],
        capability_requirement: None,
        measurement_fields: seq!["scenario_elapsed_ms"@],
    }
}

/// The `semantic-duplication` scenario as the catalog declares it.
pub open spec fn semantic_duplication_spec() -> ScenarioContractV3View {
    ScenarioContractV3View {
        scenario_id: "semantic-duplication"@,
        scenario_version: 1,
        requirement: ScenarioRequirementLevel::Required,
        category: "duplication"@,
        preconditions: "duplicated_session_lineage fixture variant"@,
        authoritative_command: "semantic_duplication"@,
        fault_point: "none"@,
        fault_layer: FaultLayer::NoFault,
        expected_durable_boundary: "new_session_identity_and_independent_writer_token"@,
        reopen_required: true,
        expected_recovery_class: ExpectedRecoveryClass::NoRecovery,
        expected_open_state: ExpectedOpenState::Normal,
        writable_open: true,
        read_only_open: ReadOnlyOpenPolicyView::Allowed,
        oracle_assertions: seq!["current_contract_oracle_v3.compare"@],
        allowed_evidence_strength: seq!["LogicalStateTransition"@],
        prohibited_claims: Seq::empty(),
        platform_requirement: seq!["macos_native"@, "windows_github_actions"@],
        capability_requirement: None,
        measurement_fields: seq!["scenario_elapsed_ms"@],
    }
}

/// The `interrupted-authoritative-review-transition` scenario as the catalog declares it.
pub open spec fn interrupted_authoritative_review_transition_spec() -> ScenarioContractV3View {
    ScenarioContractV3View {
        scenario_id: "interrupted-authoritative-review-transition"@,
        scenario_version: 1,
        requirement: ScenarioRequirementLevel::Required,
        category: "recovery"@,
        preconditions: "review transition in flight"@,
        authoritative_command: "interrupt_review_transition"@,
        fault_point: "authoritative_command_ack_boundary"@,
        fault_layer: FaultLayer::ChildProcessAbortOrKill,
        expected_durable_boundary: "no_partial_review_authority_exposed"@,
        reopen_required: true,
        expected_recovery_class: ExpectedRecoveryClass::SafeAutomaticRecovery,
        expected_open_state: ExpectedOpenState::Normal,
        writable_open: true,
        read_only_open: ReadOnlyOpenPolicyView::Allowed,
        oracle_assertions: seq!["current_contract_oracle_v3.compare"@],
        allowed_evidence_strength: seq!["InterfaceBehavior"@, "ProcessCrashRecovery"@],
        prohibited_claims: seq!["FilesystemDurability"@, "HardwarePowerLoss"@, "OsCrash"@],
        platform_requirement: seq!["macos_native"@, "windows_github_actions"@],
        capability_requirement: None,
        measurement_fields: seq!["scenario_elapsed_ms"@],
    }
}

/// The `interrupted-authoritative-reuse-transition` scenario as the catalog declares it.
pub open spec fn interrupted_authoritative_reuse_transition_spec() -> ScenarioContractV3View {
    ScenarioContractV3View {
        scenario_id: "interrupted-authoritative-reuse-transition"@,
        scenario_version: 1,
        requirement: ScenarioRequirementLevel::Required,
        category: "recovery"@,
        preconditions: "reuse governance transition in flight"@,
        authoritative_command: "interrupt_reuse_transition"@,
        fault_point: "authoritative_command_ack_boundary"@,
        fault_layer: FaultLayer::ChildProcessAbortOrKill,
        expected_durable_boundary: "no_partial_reuse_authority_exposed"@,
        reopen_required: true,
        expected_recovery_class: ExpectedRecoveryClass::SafeAutomaticRecovery,
        expected_open_state: ExpectedOpenState::Normal,
        writable_open: true,
        read_only_open: ReadOnlyOpenPolicyView::Allowed,
        oracle_assertions: seq!["current_contract_oracle_v3.compare"@],
        allowed_evidence_strength: seq!["InterfaceBehavior"@, "ProcessCrashRecovery"@],
        prohibited_claims: seq!["FilesystemDurability"@, "HardwarePowerLoss"@, "OsCrash"@],
        platform_requirement: seq!["macos_native"@, "windows_github_actions"@],
        capability_requirement: None,
        measurement_fields: seq!["scenario_elapsed_ms"@],
    }
}

/// The `interrupted-compaction` scenario as the catalog declares it.
pub open spec fn interrupted_compaction_spec() -> ScenarioContractV3View {
    ScenarioContractV3View {
        scenario_id: "interrupted-compaction"@,
        scenario_version: 1,
        requirement: ScenarioRequirementLevel::CapabilityDependent,
        category: "maintenance"@,
        preconditions: "compaction capability declared by candidate"@,
        authoritative_command: "interrupt_compaction"@,
        fault_point: "authoritative_command_ack_boundary"@,
        fault_layer: FaultLayer::ChildProcessAbortOrKill,
        expected_durable_boundary: "no_mixed_generation_exposed"@,
        reopen_required: true,
        expected_recovery_class: ExpectedRecoveryClass::SafeAutomaticRecovery,
        expected_open_state: ExpectedOpenState::Normal,
        writable_open: true,
        read_only_open: ReadOnlyOpenPolicyView::Allowed,
        oracle_assertions: seq!["current_contract_oracle_v3.compare"@],
        allowed_evidence_strength: seq!["InterfaceBehavior"@],
        prohibited_claims: seq!["FilesystemDurability"@, "HardwarePowerLoss"@, "OsCrash"@],
        platform_requirement: seq!["macos_native"@, "windows_github_actions"@],
        capability_requirement: Some("compaction_supported"@),
        measurement_fields: seq!["scenario_elapsed_ms"@],
    }
}

/// The `interrupted-cleanup` scenario as the catalog declares it.
pub open spec fn interrupted_cleanup_spec() -> ScenarioContractV3View {
    ScenarioContractV3View {
        scenario_id: "interrupted-cleanup"@,
        scenario_version: 1,
        requirement: ScenarioRequirementLevel::CapabilityDependent,
        category: "maintenance"@,
        preconditions: "destructive historical cleanup capability declared"@,
        authoritative_command: "interrupt_cleanup"@,
        fault_point: "authoritative_command_ack_boundary"@,
        fault_layer: FaultLayer::ChildProcessAbortOrKill,
        expected_durable_boundary: "post_commit_or_explicit_rejection"@,
        reopen_required: true,
        expected_recovery_class: ExpectedRecoveryClass::SafeAutomaticRecovery,
        expected_open_state: ExpectedOpenState::Normal,
        writable_open: true,
        read_only_open: ReadOnlyOpenPolicyView::Allowed,
        oracle_assertions: seq!["current_contract_oracle_v3.compare"@],
        allowed_evidence_strength: seq!["InterfaceBehavior"@],
        prohibited_claims: seq!["FilesystemDurability"@, "HardwarePowerLoss"@, "OsCrash"@],
        platform_requirement: seq!["macos_native"@, "windows_github_actions"@],
        capability_requirement: Some("destructive_cleanup_supported"@),
        measurement_fields: seq!["scenario_elapsed_ms"@],
    }
}

fn baseline_create_open_close() -> (r: ScenarioContractV3)
    ensures
        r@ == baseline_create_open_close_spec(),
{
    let r = ScenarioContractV3 {
        scenario_id: String::from_str("baseline-create-open-close"),
        scenario_version: 1,
        requirement: ScenarioRequirementLevel::Required,
        category: String::from_str("baseline"),
        preconditions: String::from_str("empty storage; current-contract fixture v3 selected"),
        authoritative_command: String::from_str("create_open_close"),
        fault_point: String::from_str("none"),
        fault_layer: FaultLayer::NoFault,
        expected_durable_boundary: String::from_str("session_created_and_closed_without_partial_authority"),
        reopen_required: true,
        expected_recovery_class: ExpectedRecoveryClass::NoRecovery,
        expected_open_state: ExpectedOpenState::Normal,
        writable_open: true,
        read_only_open: ReadOnlyOpenPolicy::Allowed,
        oracle_assertions: texts1("current_contract_oracle_v3.validate"),
        allowed_evidence_strength: texts1("InterfaceBehavior"),
        prohibited_claims: texts0(),
        platform_requirement: texts2("macos_native", "windows_github_actions"),
        capability_requirement: None,
        measurement_fields: texts1("scenario_elapsed_ms"),
    };
    proof {
        assert(r@ =~= baseline_create_open_close_spec());
    }
    r
}

fn append_review_decision() -> (r: ScenarioContractV3)
    ensures
        r@ == append_review_decision_spec(),
{
    let r = ScenarioContractV3 {
        scenario_id: String::from_str("append-review-decision"),
        scenario_version: 1,
        requirement: ScenarioRequirementLevel::Required,
        category: String::from_str("authoritative_command"),
        preconditions: String::from_str("open writable session with pending review case"),
        authoritative_command: String::from_str("append_review_decision"),
        fault_point: String::from_str("none"),
        fault_layer: FaultLayer::NoFault,
        expected_durable_boundary: String::from_str("review_ledger_event_committed"),
        reopen_required: true,
        expected_recovery_class: ExpectedRecoveryClass::NoRecovery,
        expected_open_state: ExpectedOpenState::Normal,
        writable_open: true,
        read_only_open: ReadOnlyOpenPolicy::Allowed,
        oracle_assertions: texts1("current_contract_oracle_v3.compare"),
        allowed_evidence_strength: texts1("LogicalStateTransition"),
        prohibited_claims: texts0(),
        platform_requirement: texts2("macos_native", "windows_github_actions"),
        capability_requirement: None,
        measurement_fields: texts1("scenario_elapsed_ms"),
    };
    proof {
        assert(r@ =~= append_review_decision_spec());
    }
    r
}

fn append_manual_replacement() -> (r: ScenarioContractV3)
    ensures
        r@ == append_manual_replacement_spec(),
{
    let r = ScenarioContractV3 {
        scenario_id: String::from_str("append-manual-replacement"),
        scenario_version: 1,
        requirement: ScenarioRequirementLevel::Required,
        category: String::from_str("authoritative_command"),
        preconditions: String::from_str("MD-017 manual replacement fixture loaded"),
        authoritative_command: String::from_str("append_manual_replacement"),
        fault_point: String::from_str("none"),
        fault_layer: FaultLayer::NoFault,
        expected_durable_boundary: String::from_str("manual_replacement_bytes_committed"),
        reopen_required: true,
        expected_recovery_class: ExpectedRecoveryClass::NoRecovery,
        expected_open_state: ExpectedOpenState::Normal,
        writable_open: true,
        read_only_open: ReadOnlyOpenPolicy::Allowed,
        oracle_assertions: texts1("current_contract_oracle_v3.compare"),
        allowed_evidence_strength: texts1("LogicalStateTransition"),
        prohibited_claims: texts0(),
        platform_requirement: texts2("macos_native", "windows_github_actions"),
        capability_requirement: None,
        measurement_fields: texts1("scenario_elapsed_ms"),
    };
    proof {
        assert(r@ =~= append_manual_replacement_spec());
    }
    r
}

fn append_promotion_candidate_rejection() -> (r: ScenarioContractV3)
    ensures
        r@ == append_promotion_candidate_rejection_spec(),
{
    let r = ScenarioContractV3 {
        scenario_id: String::from_str("append-promotion-candidate-rejection"),
        scenario_version: 1,
        requirement: ScenarioRequirementLevel::Required,
        category: String::from_str("authoritative_command"),
        preconditions: String::from_str("candidate_rejected fixture variant"),
        authoritative_command: String::from_str("append_promotion_candidate_rejection"),
        fault_point: String::from_str("none"),
        fault_layer: FaultLayer::NoFault,
        expected_durable_boundary: String::from_str("rejection_identity_committed"),
        reopen_required: true,
        expected_recovery_class: ExpectedRecoveryClass::NoRecovery,
        expected_open_state: ExpectedOpenState::Normal,
        writable_open: true,
        read_only_open: ReadOnlyOpenPolicy::Allowed,
        oracle_assertions: texts1("current_contract_oracle_v3.compare"),
        allowed_evidence_strength: texts1("LogicalStateTransition"),
        prohibited_claims: texts0(),
        platform_requirement: texts2("macos_native", "windows_github_actions"),
        capability_requirement: None,
        measurement_fields: texts1("scenario_elapsed_ms"),
    };
    proof {
        assert(r@ =~= append_promotion_candidate_rejection_spec());
    }
    r
}

fn append_reusable_promotion() -> (r: ScenarioContractV3)
    ensures
        r@ == append_reusable_promotion_spec(),
{
    let r = ScenarioContractV3 {
        scenario_id: String::from_str("append-reusable-promotion"),
        scenario_version: 1,
        requirement: ScenarioRequirementLevel::Required,
        category: String::from_str("authoritative_command"),
        preconditions: String::from_str("promoted_active fixture variant"),
        authoritative_command: String::from_str("append_reusable_promotion"),
        fault_point: String::from_str("none"),
        fault_layer: FaultLayer::NoFault,
        expected_durable_boundary: String::from_str("promotion_accepted_committed"),
        reopen_required: true,
        expected_recovery_class: ExpectedRecoveryClass::NoRecovery,
        expected_open_state: ExpectedOpenState::Normal,
        writable_open: true,
        read_only_open: ReadOnlyOpenPolicy::Allowed,
        oracle_assertions: texts1("current_contract_oracle_v3.compare"),
        allowed_evidence_strength: texts1("LogicalStateTransition"),
        prohibited_claims: texts0(),
        platform_requirement: texts2("macos_native", "windows_github_actions"),
        capability_requirement: None,
        measurement_fields: texts1("scenario_elapsed_ms"),
    };
    proof {
        assert(r@ =~= append_reusable_promotion_spec());
    }
    r
}

fn append_reusable_revocation() -> (r: ScenarioContractV3)
    ensures
        r@ == append_reusable_revocation_spec(),
{
    let r = ScenarioContractV3 {
        scenario_id: String::from_str("append-reusable-revocation"),
        scenario_version: 1,
        requirement: ScenarioRequirementLevel::Required,
        category: String::from_str("authoritative_command"),
        preconditions: String::from_str("revoked_historical fixture variant"),
        authoritative_command: String::from_str("append_reusable_revocation"),
        fault_point: String::from_str("none"),
        fault_layer: FaultLayer::NoFault,
        expected_durable_boundary: String::from_str("revocation_committed"),
        reopen_required: true,
        expected_recovery_class: ExpectedRecoveryClass::NoRecovery,
        expected_open_state: ExpectedOpenState::Normal,
        writable_open: true,
        read_only_open: ReadOnlyOpenPolicy::Allowed,
        oracle_assertions: texts1("current_contract_oracle_v3.compare"),
        allowed_evidence_strength: texts1("LogicalStateTransition"),
        prohibited_claims: texts0(),
        platform_requirement: texts2("macos_native", "windows_github_actions"),
        capability_requirement: None,
        measurement_fields: texts1("scenario_elapsed_ms"),
    };
    proof {
        assert(r@ =~= append_reusable_revocation_spec());
    }
    r
}

fn append_reusable_supersession() -> (r: ScenarioContractV3)
    ensures
        r@ == append_reusable_supersession_spec(),
{
    let r = ScenarioContractV3 {
        scenario_id: String::from_str("append-reusable-supersession"),
        scenario_version: 1,
        requirement: ScenarioRequirementLevel::Required,
        category: String::from_str("authoritative_command"),
        preconditions: String::from_str("superseded fixture variant"),
        authoritative_command: String::from_str("append_reusable_supersession"),
        fault_point: String::from_str("none"),
        fault_layer: FaultLayer::NoFault,
        expected_durable_boundary: String::from_str("supersession_batch_committed"),
        reopen_required: true,
        expected_recovery_class: ExpectedRecoveryClass::NoRecovery,
        expected_open_state: ExpectedOpenState::Normal,
        writable_open: true,
        read_only_open: ReadOnlyOpenPolicy::Allowed,
        oracle_assertions: texts1("current_contract_oracle_v3.compare"),
        allowed_evidence_strength: texts1("LogicalStateTransition"),
        prohibited_claims: texts0(),
        platform_requirement: texts2("macos_native", "windows_github_actions"),
        capability_requirement: None,
        measurement_fields: texts1("scenario_elapsed_ms"),
    };
    proof {
        assert(r@ =~= append_reusable_supersession_spec());
    }
    r
}

fn stale_review_ledger_command() -> (r: ScenarioContractV3)
    ensures
        r@ == stale_review_ledger_command_spec(),
{
    let r = ScenarioContractV3 {
        scenario_id: String::from_str("stale-review-ledger-command"),
        scenario_version: 2,
        requirement: ScenarioRequirementLevel::Required,
        category: String::from_str("concurrency"),
        preconditions: String::from_str("review command A prepared at S0; competing review command B advances review scope to S1"),
        authoritative_command: String::from_str("stale_review_ledger_command"),
        fault_point: String::from_str("none"),
        fault_layer: FaultLayer::LogicalReturnedError,
        expected_durable_boundary: String::from_str("stale_command_rejected"),
        reopen_required: true,
        expected_recovery_class: ExpectedRecoveryClass::NoRecovery,
        expected_open_state: ExpectedOpenState::Normal,
        writable_open: true,
        read_only_open: ReadOnlyOpenPolicy::Allowed,
        oracle_assertions: texts2("current_contract_oracle_v3.validate", "persist_reopen_authority_unchanged"),
        allowed_evidence_strength: texts1("InterfaceBehavior"),
        prohibited_claims: texts0(),
        platform_requirement: texts2("macos_native", "windows_github_actions"),
        capability_requirement: None,
        measurement_fields: texts1("scenario_elapsed_ms"),
    };
    proof {
        assert(r@ =~= stale_review_ledger_command_spec());
    }
    r
}

fn stale_reuse_governance_command() -> (r: ScenarioContractV3)
    ensures
        r@ == stale_reuse_governance_command_spec(),
{
    let r = ScenarioContractV3 {
        scenario_id: String::from_str("stale-reuse-governance-command"),
        scenario_version: 2,
        requirement: ScenarioRequirementLevel::Required,
        category: String::from_str("concurrency"),
        preconditions: String::from_str("reuse command A prepared at S0; competing reuse command B advances reuse scope to S1"),
        authoritative_command: String::from_str("stale_reuse_governance_command"),
        fault_point: String::from_str("none"),
        fault_layer: FaultLayer::LogicalReturnedError,
        expected_durable_boundary: String::from_str("stale_command_rejected"),
        reopen_required: true,
        expected_recovery_class: ExpectedRecoveryClass::NoRecovery,
        expected_open_state: ExpectedOpenState::Normal,
        writable_open: true,
        read_only_open: ReadOnlyOpenPolicy::Allowed,
        oracle_assertions: texts2("current_contract_oracle_v3.validate", "persist_reopen_authority_unchanged"),
        allowed_evidence_strength: texts1("InterfaceBehavior"),
        prohibited_claims: texts0(),
        platform_requirement: texts2("macos_native", "windows_github_actions"),
        capability_requirement: None,
        measurement_fields: texts1("scenario_elapsed_ms"),
    };
    proof {
        assert(r@ =~= stale_reuse_governance_command_spec());
    }
    r
}

fn stale_analysis_attachment_or_selection() -> (r: ScenarioContractV3)
    ensures
        r@ == stale_analysis_attachment_or_selection_spec(),
{
    let r = ScenarioContractV3 {
        scenario_id: String::from_str("stale-analysis-attachment-or-selection"),
        scenario_version: 2,
        requirement: ScenarioRequirementLevel::Required,
        category: String::from_str("concurrency"),
        preconditions: String::from_str("analysis command A prepared at S0; competing analysis command B advances active analysis to S1"),
        authoritative_command: String::from_str("stale_analysis_attachment_or_selection"),
        fault_point: String::from_str("none"),
        fault_layer: FaultLayer::LogicalReturnedError,
        expected_durable_boundary: String::from_str("stale_selection_rejected"),
        reopen_required: true,
        expected_recovery_class: ExpectedRecoveryClass::NoRecovery,
        expected_open_state: ExpectedOpenState::Normal,
        writable_open: true,
        read_only_open: ReadOnlyOpenPolicy::Allowed,
        oracle_assertions: texts2("current_contract_oracle_v3.validate", "persist_reopen_authority_unchanged"),
        allowed_evidence_strength: texts1("InterfaceBehavior"),
        prohibited_claims: texts0(),
        platform_requirement: texts2("macos_native", "windows_github_actions"),
        capability_requirement: None,
        measurement_fields: texts1("scenario_elapsed_ms"),
    };
    proof {
        assert(r@ =~= stale_analysis_attachment_or_selection_spec());
    }
    r
}

fn unrelated_scope_review_after_reuse_advance() -> (r: ScenarioContractV3)
    ensures
        r@ == unrelated_scope_review_after_reuse_advance_spec(),
{
    let r = ScenarioContractV3 {
        scenario_id: String::from_str("unrelated-scope-review-after-reuse-advance"),
        scenario_version: 1,
        requirement: ScenarioRequirementLevel::Required,
        category: String::from_str("concurrency"),
        preconditions: String::from_str("review command prepared; unrelated reuse-only advance"),
        authoritative_command: String::from_str("unrelated_scope_review_after_reuse_advance"),
        fault_point: String::from_str("none"),
        fault_layer: FaultLayer::NoFault,
        expected_durable_boundary: String::from_str("review_applied_with_unrelated_reuse_authority_preserved"),
        reopen_required: true,
        expected_recovery_class: ExpectedRecoveryClass::NoRecovery,
        expected_open_state: ExpectedOpenState::Normal,
        writable_open: true,
        read_only_open: ReadOnlyOpenPolicy::Allowed,
        oracle_assertions: texts2("current_contract_oracle_v3.compare", "persist_reopen_authority_unchanged"),
        allowed_evidence_strength: texts1("LogicalStateTransition"),
        prohibited_claims: texts0(),
        platform_requirement: texts2("macos_native", "windows_github_actions"),
        capability_requirement: None,
        measurement_fields: texts1("scenario_elapsed_ms"),
    };
    proof {
        assert(r@ =~= unrelated_scope_review_after_reuse_advance_spec());
    }
    r
}

fn concurrent_writer_attempt() -> (r: ScenarioContractV3)
    ensures
        r@ == concurrent_writer_attempt_spec(),
{
    let r = ScenarioContractV3 {
        scenario_id: String::from_str("concurrent-writer-attempt"),
        scenario_version: 1,
        requirement: ScenarioRequirementLevel::Required,
        category: String::from_str("concurrency"),
        preconditions: String::from_str("one active writer already holds session ownership"),
        authoritative_command: String::from_str("concurrent_writer_attempt"),
        fault_point: String::from_str("none"),
        fault_layer: FaultLayer::MultiProcessConcurrency,
        expected_durable_boundary: String::from_str("second_writer_rejected_or_read_only"),
        reopen_required: false,
        expected_recovery_class: ExpectedRecoveryClass::NoRecovery,
        expected_open_state: ExpectedOpenState::Normal,
        writable_open: false,
        read_only_open: ReadOnlyOpenPolicy::Allowed,
        oracle_assertions: texts1("current_contract_oracle_v3.validate"),
        allowed_evidence_strength: texts1("InterfaceBehavior"),
        prohibited_claims: texts4("ProcessCrashRecovery", "FilesystemDurability", "HardwarePowerLoss", "OsCrash"),
        platform_requirement: texts2("macos_native", "windows_github_actions"),
        capability_requirement: None,
        measurement_fields: texts1("scenario_elapsed_ms"),
    };
    proof {
        assert(r@ =~= concurrent_writer_attempt_spec());
    }
    r
}

fn writer_crash_and_takeover() -> (r: ScenarioContractV3)
    ensures
        r@ == writer_crash_and_takeover_spec(),
{
    let r = ScenarioContractV3 {
        scenario_id: String::from_str("writer-crash-and-takeover"),
        scenario_version: 1,
        requirement: ScenarioRequirementLevel::Required,
        category: String::from_str("concurrency"),
        preconditions: String::from_str("writer lease expired or child process aborted"),
        authoritative_command: String::from_str("writer_crash_and_takeover"),
        fault_point: String::from_str("authoritative_command_ack_boundary"),
        fault_layer: FaultLayer::ChildProcessAbortOrKill,
        expected_durable_boundary: String::from_str("last_committed_state_preserved"),
        reopen_required: true,
        expected_recovery_class: ExpectedRecoveryClass::SafeAutomaticRecovery,
        expected_open_state: ExpectedOpenState::Normal,
        writable_open: true,
        read_only_open: ReadOnlyOpenPolicy::Allowed,
        oracle_assertions: texts1("current_contract_oracle_v3.compare"),
        allowed_evidence_strength: texts2("InterfaceBehavior", "ProcessCrashRecovery"),
        prohibited_claims: texts3("FilesystemDurability", "HardwarePowerLoss", "OsCrash"),
        platform_requirement: texts2("macos_native", "windows_github_actions"),
        capability_requirement: Some(String::from_str("verified_writer_ownership_loss")),
        measurement_fields: texts1("scenario_elapsed_ms"),
    };
    proof {
        assert(r@ =~= writer_crash_and_takeover_spec());
    }
    r
}

fn read_only_open_during_writer() -> (r: ScenarioContractV3)
    ensures
        r@ == read_only_open_during_writer_spec(),
{
    let r = ScenarioContractV3 {
        scenario_id: String::from_str("read-only-open-during-writer"),
        scenario_version: 1,
        requirement: ScenarioRequirementLevel::Required,
        category: String::from_str("concurrency"),
        preconditions: String::from_str("active writer holds exclusive ownership"),
        authoritative_command: String::from_str("read_only_open_during_writer"),
        fault_point: String::from_str("none"),
        fault_layer: FaultLayer::MultiProcessConcurrency,
        expected_durable_boundary: String::from_str("read_only_view_without_write_authority"),
        reopen_required: false,
        expected_recovery_class: ExpectedRecoveryClass::NoRecovery,
        expected_open_state: ExpectedOpenState::Normal,
        writable_open: false,
        read_only_open: ReadOnlyOpenPolicy::Allowed,
        oracle_assertions: texts1("current_contract_oracle_v3.validate"),
        allowed_evidence_strength: texts1("InterfaceBehavior"),
        prohibited_claims: texts0(),
        platform_requirement: texts2("macos_native", "windows_github_actions"),
        capability_requirement: None,
        measurement_fields: texts1("scenario_elapsed_ms"),
    };
    proof {
        assert(r@ =~= read_only_open_during_writer_spec());
    }
    r
}

fn unknown_newer_format() -> (r: ScenarioContractV3)
    ensures
        r@ == unknown_newer_format_spec(),
{
    let r = ScenarioContractV3 {
        scenario_id: String::from_str("unknown-newer-format"),
        scenario_version: 1,
        requirement: ScenarioRequirementLevel::Required,
        category: String::from_str("format_compatibility"),
        preconditions: String::from_str("storage reports newer unsupported format version"),
        authoritative_command: String::from_str("open_unknown_newer_format"),
        fault_point: String::from_str("open_boundary"),
        fault_layer: FaultLayer::LogicalReturnedError,
        expected_durable_boundary: String::from_str("writable_open_forbidden"),
        reopen_required: false,
        expected_recovery_class: ExpectedRecoveryClass::UnsupportedVersion,
        expected_open_state: ExpectedOpenState::UnsupportedVersion,
        writable_open: false,
        read_only_open: ReadOnlyOpenPolicy::ConditionallyAllowed { required_condition: String::from_str("interpretation_demonstrably_safe") },
        oracle_assertions: texts1("current_contract_oracle_v3.validate"),
        allowed_evidence_strength: texts1("InterfaceBehavior"),
        prohibited_claims: texts0(),
        platform_requirement: texts2("macos_native", "windows_github_actions"),
        capability_requirement: None,
        measurement_fields: texts1("scenario_elapsed_ms"),
    };
    proof {
        assert(r@ =~= unknown_newer_format_spec());
    }
    r
}

fn malformed_format_version() -> (r: ScenarioContractV3)
    ensures
        r@ == malformed_format_version_spec(),
{
    let r = ScenarioContractV3 {
        scenario_id: String::from_str("malformed-format-version"),
        scenario_version: 1,
        requirement: ScenarioRequirementLevel::Required,
        category: String::from_str("format_compatibility"),
        preconditions: String::from_str("malformed format header"),
        authoritative_command: String::from_str("open_malformed_format_version"),
        fault_point: String::from_str("open_boundary"),
        fault_layer: FaultLayer::LogicalReturnedError,
        expected_durable_boundary: String::from_str("open_refused"),
        reopen_required: false,
        expected_recovery_class: ExpectedRecoveryClass::Unrecoverable,
        expected_open_state: ExpectedOpenState::Unrecoverable,
        writable_open: false,
        read_only_open: ReadOnlyOpenPolicy::Forbidden,
        oracle_assertions: texts1("current_contract_oracle_v3.validate"),
        allowed_evidence_strength: texts1("InterfaceBehavior"),
        prohibited_claims: texts0(),
        platform_requirement: texts2("macos_native", "windows_github_actions"),
        capability_requirement: None,
        measurement_fields: texts1("scenario_elapsed_ms"),
    };
    proof {
        assert(r@ =~= malformed_format_version_spec());
    }
    r
}

fn canonical_reference_corruption() -> (r: ScenarioContractV3)
    ensures
        r@ == canonical_reference_corruption_spec(),
{
    let r = ScenarioContractV3 {
        scenario_id: String::from_str("canonical-reference-corruption"),
        scenario_version: 1,
        requirement: ScenarioRequirementLevel::Required,
        category: String::from_str("corruption"),
        preconditions: String::from_str("canonical referenced payload checksum mismatch"),
        authoritative_command: String::from_str("detect_canonical_reference_corruption"),
        fault_point: String::from_str("open_boundary"),
        fault_layer: FaultLayer::LogicalReturnedError,
        expected_durable_boundary: String::from_str("corruption_detected_before_authority_exposed"),
        reopen_required: false,
        expected_recovery_class: ExpectedRecoveryClass::ManualReviewRequired,
        expected_open_state: ExpectedOpenState::ReadOnlySalvage,
        writable_open: false,
        read_only_open: ReadOnlyOpenPolicy::Allowed,
        oracle_assertions: texts1("current_contract_oracle_v3.validate"),
        allowed_evidence_strength: texts1("InterfaceBehavior"),
        prohibited_claims: texts0(),
        platform_requirement: texts2("macos_native", "windows_github_actions"),
        capability_requirement: None,
        measurement_fields: texts1("scenario_elapsed_ms"),
    };
    proof {
        assert(r@ =~= canonical_reference_corruption_spec());
    }
    r
}

fn review_ledger_order_corruption() -> (r: ScenarioContractV3)
    ensures
        r@ == review_ledger_order_corruption_spec(),
{
    let r = ScenarioContractV3 {
        scenario_id: String::from_str("review-ledger-order-corruption"),
        scenario_version: 1,
        requirement: ScenarioRequirementLevel::Required,
        category: String::from_str("corruption"),
        preconditions: String::from_str("review ledger event order corrupted"),
        authoritative_command: String::from_str("detect_review_ledger_order_corruption"),
        fault_point: String::from_str("open_boundary"),
        fault_layer: FaultLayer::LogicalReturnedError,
        expected_durable_boundary: String::from_str("corruption_detected_before_authority_exposed"),
        reopen_required: false,
        expected_recovery_class: ExpectedRecoveryClass::Unrecoverable,
        expected_open_state: ExpectedOpenState::Unrecoverable,
        writable_open: false,
        read_only_open: ReadOnlyOpenPolicy::Forbidden,
        oracle_assertions: texts1("current_contract_oracle_v3.validate"),
        allowed_evidence_strength: texts1("InterfaceBehavior"),
        prohibited_claims: texts0(),
        platform_requirement: texts2("macos_native", "windows_github_actions"),
        capability_requirement: None,
        measurement_fields: texts1("scenario_elapsed_ms"),
    };
    proof {
        assert(r@ =~= review_ledger_order_corruption_spec());
    }
    r
}

fn reuse_governance_order_corruption() -> (r: ScenarioContractV3)
    ensures
        r@ == reuse_governance_order_corruption_spec(),
{
    let r = ScenarioContractV3 {
        scenario_id: String::from_str("reuse-governance-order-corruption"),
        scenario_version: 1,
        requirement: ScenarioRequirementLevel::Required,
        category: String::from_str("corruption"),
        preconditions: String::from_str("reuse governance event order corrupted"),
        authoritative_command: String::from_str("detect_reuse_governance_order_corruption"),
        fault_point: String::from_str("open_boundary"),
        fault_layer: FaultLayer::LogicalReturnedError,
        expected_durable_boundary: String::from_str("corruption_detected_before_authority_exposed"),
        reopen_required: false,
        expected_recovery_class: ExpectedRecoveryClass::Unrecoverable,
        expected_open_state: ExpectedOpenState::Unrecoverable,
        writable_open: false,
        read_only_open: ReadOnlyOpenPolicy::Forbidden,
        oracle_assertions: texts1("current_contract_oracle_v3.validate"),
        allowed_evidence_strength: texts1("InterfaceBehavior"),
        prohibited_claims: texts0(),
        platform_requirement: texts2("macos_native", "windows_github_actions"),
        capability_requirement: None,
        measurement_fields: texts1("scenario_elapsed_ms"),
    };
    proof {
        assert(r@ =~= reuse_governance_order_corruption_spec());
    }
    r
}

fn source_locator_corruption() -> (r: ScenarioContractV3)
    ensures
        r@ == source_locator_corruption_spec(),
{
    let r = ScenarioContractV3 {
        scenario_id: String::from_str("source-locator-corruption"),
        scenario_version: 1,
        requirement: ScenarioRequirementLevel::Required,
        category: String::from_str("corruption"),
        preconditions: String::from_str("typed source locator field corrupted"),
        authoritative_command: String::from_str("detect_source_locator_corruption"),
        fault_point: String::from_str("open_boundary"),
        fault_layer: FaultLayer::LogicalReturnedError,
        expected_durable_boundary: String::from_str("locator_integrity_failure"),
        reopen_required: false,
        expected_recovery_class: ExpectedRecoveryClass::ManualReviewRequired,
        expected_open_state: ExpectedOpenState::ReadOnlySalvage,
        writable_open: false,
        read_only_open: ReadOnlyOpenPolicy::Allowed,
        oracle_assertions: texts1("current_contract_oracle_v3.validate"),
        allowed_evidence_strength: texts1("InterfaceBehavior"),
        prohibited_claims: texts0(),
        platform_requirement: texts2("macos_native", "windows_github_actions"),
        capability_requirement: None,
        measurement_fields: texts1("scenario_elapsed_ms"),
    };
    proof {
        assert(r@ =~= source_locator_corruption_spec());
    }
    r
}

fn derived_state_corruption_and_rebuild() -> (r: ScenarioContractV3)
    ensures
        r@ == derived_state_corruption_and_rebuild_spec(),
{
    let r = ScenarioContractV3 {
        scenario_id: String::from_str("derived-state-corruption-and-rebuild"),
        scenario_version: 1,
        requirement: ScenarioRequirementLevel::Required,
        category: String::from_str("corruption"),
        preconditions: String::from_str("derived cache corrupted while canonical history intact"),
        authoritative_command: String::from_str("rebuild_derived_state"),
        fault_point: String::from_str("none"),
        fault_layer: FaultLayer::NoFault,
        expected_durable_boundary: String::from_str("derived_state_rebuilt_from_canonical_history"),
        reopen_required: true,
        expected_recovery_class: ExpectedRecoveryClass::SafeAutomaticRecovery,
        expected_open_state: ExpectedOpenState::Normal,
        writable_open: true,
        read_only_open: ReadOnlyOpenPolicy::Allowed,
        oracle_assertions: texts1("current_contract_oracle_v3.compare"),
        allowed_evidence_strength: texts1("InterfaceBehavior"),
        prohibited_claims: texts0(),
        platform_requirement: texts2("macos_native", "windows_github_actions"),
        capability_requirement: None,
        measurement_fields: texts1("scenario_elapsed_ms"),
    };
    proof {
        assert(r@ =~= derived_state_corruption_and_rebuild_spec());
    }
    r
}

fn semantic_duplication() -> (r: ScenarioContractV3)
    ensures
        r@ == semantic_duplication_spec(),
{
    let r = ScenarioContractV3 {
        scenario_id: String::from_str("semantic-duplication"),
        scenario_version: 1,
        requirement: ScenarioRequirementLevel::Required,
        category: String::from_str("duplication"),
        preconditions: String::from_str("duplicated_session_lineage fixture variant"),
        authoritative_command: String::from_str("semantic_duplication"),
        fault_point: String::from_str("none"),
        fault_layer: FaultLayer::NoFault,
        expected_durable_boundary: String::from_str("new_session_identity_and_independent_writer_token"),
        reopen_required: true,
        expected_recovery_class: ExpectedRecoveryClass::NoRecovery,
        expected_open_state: ExpectedOpenState::Normal,
        writable_open: true,
        read_only_open: ReadOnlyOpenPolicy::Allowed,
        oracle_assertions: texts1("current_contract_oracle_v3.compare"),
        allowed_evidence_strength: texts1("LogicalStateTransition"),
        prohibited_claims: texts0(),
        platform_requirement: texts2("macos_native", "windows_github_actions"),
        capability_requirement: None,
        measurement_fields: texts1("scenario_elapsed_ms"),
    };
    proof {
        assert(r@ =~= semantic_duplication_spec());
    }
    r
}

fn interrupted_authoritative_review_transition() -> (r: ScenarioContractV3)
    ensures
        r@ == interrupted_authoritative_review_transition_spec(),
{
    let r = ScenarioContractV3 {
        scenario_id: String::from_str("interrupted-authoritative-review-transition"),
        scenario_version: 1,
        requirement: ScenarioRequirementLevel::Required,
        category: String::from_str("recovery"),
        preconditions: String::from_str("review transition in flight"),
        authoritative_command: String::from_str("interrupt_review_transition"),
        fault_point: String::from_str("authoritative_command_ack_boundary"),
        fault_layer: FaultLayer::ChildProcessAbortOrKill,
        expected_durable_boundary: String::from_str("no_partial_review_authority_exposed"),
        reopen_required: true,
        expected_recovery_class: ExpectedRecoveryClass::SafeAutomaticRecovery,
        expected_open_state: ExpectedOpenState::Normal,
        writable_open: true,
        read_only_open: ReadOnlyOpenPolicy::Allowed,
        oracle_assertions: texts1("current_contract_oracle_v3.compare"),
        allowed_evidence_strength: texts2("InterfaceBehavior", "ProcessCrashRecovery"),
        prohibited_claims: texts3("FilesystemDurability", "HardwarePowerLoss", "OsCrash"),
        platform_requirement: texts2("macos_native", "windows_github_actions"),
        capability_requirement: None,
        measurement_fields: texts1("scenario_elapsed_ms"),
    };
    proof {
        assert(r@ =~= interrupted_authoritative_review_transition_spec());
    }
    r
}

fn interrupted_authoritative_reuse_transition() -> (r: ScenarioContractV3)
    ensures
        r@ == interrupted_authoritative_reuse_transition_spec(),
{
    let r = ScenarioContractV3 {
        scenario_id: String::from_str("interrupted-authoritative-reuse-transition"),
        scenario_version: 1,
        requirement: ScenarioRequirementLevel::Required,
        category: String::from_str("recovery"),
        preconditions: String::from_str("reuse governance transition in flight"),
        authoritative_command: String::from_str("interrupt_reuse_transition"),
        fault_point: String::from_str("authoritative_command_ack_boundary"),
        fault_layer: FaultLayer::ChildProcessAbortOrKill,
        expected_durable_boundary: String::from_str("no_partial_reuse_authority_exposed"),
        reopen_required: true,
        expected_recovery_class: ExpectedRecoveryClass::SafeAutomaticRecovery,
        expected_open_state: ExpectedOpenState::Normal,
        writable_open: true,
        read_only_open: ReadOnlyOpenPolicy::Allowed,
        oracle_assertions: texts1("current_contract_oracle_v3.compare"),
        allowed_evidence_strength: texts2("InterfaceBehavior", "ProcessCrashRecovery"),
        prohibited_claims: texts3("FilesystemDurability", "HardwarePowerLoss", "OsCrash"),
        platform_requirement: texts2("macos_native", "windows_github_actions"),
        capability_requirement: None,
        measurement_fields: texts1("scenario_elapsed_ms"),
    };
    proof {
        assert(r@ =~= interrupted_authoritative_reuse_transition_spec());
    }
    r
}

fn interrupted_compaction() -> (r: ScenarioContractV3)
    ensures
        r@ == interrupted_compaction_spec(),
{
    let r = ScenarioContractV3 {
        scenario_id: String::from_str("interrupted-compaction"),
        scenario_version: 1,
        requirement: ScenarioRequirementLevel::CapabilityDependent,
        category: String::from_str("maintenance"),
        preconditions: String::from_str("compaction capability declared by candidate"),
        authoritative_command: String::from_str("interrupt_compaction"),
        fault_point: String::from_str("authoritative_command_ack_boundary"),
        fault_layer: FaultLayer::ChildProcessAbortOrKill,
        expected_durable_boundary: String::from_str("no_mixed_generation_exposed"),
        reopen_required: true,
        expected_recovery_class: ExpectedRecoveryClass::SafeAutomaticRecovery,
        expected_open_state: ExpectedOpenState::Normal,
        writable_open: true,
        read_only_open: ReadOnlyOpenPolicy::Allowed,
        oracle_assertions: texts1("current_contract_oracle_v3.compare"),
        allowed_evidence_strength: texts1("InterfaceBehavior"),
        prohibited_claims: texts3("FilesystemDurability", "HardwarePowerLoss", "OsCrash"),
        platform_requirement: texts2("macos_native", "windows_github_actions"),
        capability_requirement: Some(String::from_str("compaction_supported")),
        measurement_fields: texts1("scenario_elapsed_ms"),
    };
    proof {
        assert(r@ =~= interrupted_compaction_spec());
    }
    r
}

fn interrupted_cleanup() -> (r: ScenarioContractV3)
    ensures
        r@ == interrupted_cleanup_spec(),
{
    let r = ScenarioContractV3 {
        scenario_id: String::from_str("interrupted-cleanup"),
        scenario_version: 1,
        requirement: ScenarioRequirementLevel::CapabilityDependent,
        category: String::from_str("maintenance"),
        preconditions: String::from_str("destructive historical cleanup capability declared"),
        authoritative_command: String::from_str("interrupt_cleanup"),
        fault_point: String::from_str("authoritative_command_ack_boundary"),
        fault_layer: FaultLayer::ChildProcessAbortOrKill,
        expected_durable_boundary: String::from_str("post_commit_or_explicit_rejection"),
        reopen_required: true,
        expected_recovery_class: ExpectedRecoveryClass::SafeAutomaticRecovery,
        expected_open_state: ExpectedOpenState::Normal,
        writable_open: true,
        read_only_open: ReadOnlyOpenPolicy::Allowed,
        oracle_assertions: texts1("current_contract_oracle_v3.compare"),
        allowed_evidence_strength: texts1("InterfaceBehavior"),
        prohibited_claims: texts3("FilesystemDurability", "HardwarePowerLoss", "OsCrash"),
        platform_requirement: texts2("macos_native", "windows_github_actions"),
        capability_requirement: Some(String::from_str("destructive_cleanup_supported")),
        measurement_fields: texts1("scenario_elapsed_ms"),
    };
    proof {
        assert(r@ =~= interrupted_cleanup_spec());
    }
    r
}

/// The earlier scenario catalog, in its declared order.
pub open spec fn catalog_v3_spec() -> Seq<ScenarioContractV3View> {
    seq![
        baseline_create_open_close_spec(),
        append_review_decision_spec(),
        append_manual_replacement_spec(),
        append_promotion_candidate_rejection_spec(),
        append_reusable_promotion_spec(),
        append_reusable_revocation_spec(),
        append_reusable_supersession_spec(),
        stale_review_ledger_command_spec(),
        stale_reuse_governance_command_spec(),
        stale_analysis_attachment_or_selection_spec(),
        unrelated_scope_review_after_reuse_advance_spec(),
        concurrent_writer_attempt_spec(),
        writer_crash_and_takeover_spec(),
        read_only_open_during_writer_spec(),
        unknown_newer_format_spec(),
        malformed_format_version_spec(),
        canonical_reference_corruption_spec(),
        review_ledger_order_corruption_spec(),
        reuse_governance_order_corruption_spec(),
        source_locator_corruption_spec(),
        derived_state_corruption_and_rebuild_spec(),
        semantic_duplication_spec(),
        interrupted_authoritative_review_transition_spec(),
        interrupted_authoritative_reuse_transition_spec(),
        interrupted_compaction_spec(),
        interrupted_cleanup_spec()
    ]
}

/// The earlier scenario catalog, in its declared order.
pub fn scenario_contract_v3() -> (r: Vec<ScenarioContractV3>)
    ensures
        vec_view(r@) == catalog_v3_spec(),
{
    let mut v: Vec<ScenarioContractV3> = Vec::new();
    v.push(baseline_create_open_close());
    v.push(append_review_decision());
    v.push(append_manual_replacement());
    v.push(append_promotion_candidate_rejection());
    v.push(append_reusable_promotion());
    v.push(append_reusable_revocation());
    v.push(append_reusable_supersession());
    v.push(stale_review_ledger_command());
    v.push(stale_reuse_governance_command());
    v.push(stale_analysis_attachment_or_selection());
    v.push(unrelated_scope_review_after_reuse_advance());
    v.push(concurrent_writer_attempt());
    v.push(writer_crash_and_takeover());
    v.push(read_only_open_during_writer());
    v.push(unknown_newer_format());
    v.push(malformed_format_version());
    v.push(canonical_reference_corruption());
    v.push(review_ledger_order_corruption());
    v.push(reuse_governance_order_corruption());
    v.push(source_locator_corruption());
    v.push(derived_state_corruption_and_rebuild());
    v.push(semantic_duplication());
    v.push(interrupted_authoritative_review_transition());
    v.push(interrupted_authoritative_reuse_transition());
    v.push(interrupted_compaction());
    v.push(interrupted_cleanup());
    proof {
        assert(vec_view(v@) =~= catalog_v3_spec());
    }
    v
}


/// A corruption scenario as the current catalog restates it: it must fail closed.
pub open spec fn v4_adjust(s: ScenarioContractV3View) -> ScenarioContractV3View {
    if s.scenario_id == "canonical-reference-corruption"@ || s.scenario_id == "source-locator-corruption"@ {
        ScenarioContractV3View {
            scenario_version: 2,
            expected_open_state: ExpectedOpenState::Unrecoverable,
            read_only_open: ReadOnlyOpenPolicyView::Forbidden,
            writable_open: false,
            expected_recovery_class: ExpectedRecoveryClass::ManualReviewRequired,
            expected_durable_boundary: "corruption_detected_fail_closed"@,
            ..s
        }
    } else {
        s
    }
}

/// The current scenario catalog: the earlier one with its corruption scenarios restated.
pub open spec fn catalog_v4_spec() -> Seq<ScenarioContractV3View> {
    catalog_v3_spec().map_values(|s: ScenarioContractV3View| v4_adjust(s))
}

/// The current scenario catalog: the earlier one with its two authoritative
/// corruption scenarios restated to fail closed.
pub fn scenario_contract_v4() -> (r: Vec<ScenarioContractV3>)
    ensures
        vec_view(r@) == catalog_v4_spec(),
{
    let v3 = scenario_contract_v3();
    let mut out: Vec<ScenarioContractV3> = Vec::new();
    let mut i: usize = 0;
    while i < v3.len()
        invariant
            i <= v3.len(),
            vec_view(v3@) == catalog_v3_spec(),
            out@.len() == i,
            forall|j: int| 0 <= j < i ==> (#[trigger] out@[j])@ == v4_adjust(catalog_v3_spec()[j]),
        decreases v3.len() - i,
    {
        let mut scenario = v3[i].clone();
        proof {
            assert(scenario@ == catalog_v3_spec()[i as int]);
        }
        let id = scenario.scenario_id.as_str();
        if str_eq(id, "canonical-reference-corruption") || str_eq(id, "source-locator-corruption") {
            scenario.scenario_version = 2;
            scenario.expected_open_state = ExpectedOpenState::Unrecoverable;
            scenario.read_only_open = ReadOnlyOpenPolicy::Forbidden;
            scenario.writable_open = false;
            scenario.expected_recovery_class = ExpectedRecoveryClass::ManualReviewRequired;
            scenario.expected_durable_boundary = String::from_str("corruption_detected_fail_closed");
        }
        out.push(scenario);
        i = i + 1;
    }
    proof {
        assert(vec_view(out@) =~= catalog_v4_spec());
    }
    out
}

/// `<scenario id>@<scenario version>`, the identity of a scenario in a catalog.
pub open spec fn scenario_key(s: ScenarioContractV3View) -> Seq<char> {
    s.scenario_id + "@"@ + decimal_spec(s.scenario_version as nat)
}

fn scenario_key_text(s: &ScenarioContractV3) -> (r: String)
    ensures
        r@ == scenario_key(s@),
{
    let version = decimal(s.scenario_version as usize);
    concat3(s.scenario_id.as_str(), "@", version.as_str())
}

/// Some entry is empty or only whitespace.
pub open spec fn any_blank(v: Seq<Seq<char>>) -> bool {
    exists|k: int| 0 <= k < v.len() && is_blank_spec(#[trigger] v[k])
}

fn any_blank_exec(v: &Vec<String>) -> (r: bool)
    ensures
        r == any_blank(vec_view(v@)),
{
    let ghost vv = vec_view(v@);
    let mut k: usize = 0;
    while k < v.len()
        invariant
            k <= v.len(),
            vv == vec_view(v@),
            forall|j: int| 0 <= j < k ==> !is_blank_spec(#[trigger] vv[j]),
        decreases v.len() - k,
    {
        if is_blank(v[k].as_str()) {
            proof {
                assert(is_blank_spec(vv[k as int]));
            }
            return true;
        }
        k = k + 1;
    }
    false
}

/// The evidence strengths a scenario may claim.
pub open spec fn allowed_strength_spec(s: Seq<char>) -> bool {
    ||| s == "InterfaceBehavior"@
    ||| s == "LogicalStateTransition"@
    ||| s == "ProcessCrashRecovery"@
    ||| s == "FilesystemDurability"@
    ||| s == "HardwarePowerLoss"@
    ||| s == "CrossPlatform"@
}

/// The platforms a scenario may require.
pub open spec fn valid_platform_spec(s: Seq<char>) -> bool {
    s == "macos_native"@ || s == "windows_github_actions"@
}

/// The first entry that fails `ok`, if any.
pub open spec fn first_failing(v: Seq<Seq<char>>, ok: spec_fn(Seq<char>) -> bool) -> Option<Seq<char>>
    decreases v.len(),
{
    if v.len() == 0 {
        None
    } else if !ok(v[0]) {
        Some(v[0])
    } else {
        first_failing(v.drop_first(), ok)
    }
}

/// Whether a text is an allowed evidence strength.
pub open spec fn strength_ok() -> spec_fn(Seq<char>) -> bool {
    |s: Seq<char>| allowed_strength_spec(s)
}

/// Whether a text is a valid platform label.
pub open spec fn platform_ok() -> spec_fn(Seq<char>) -> bool {
    |s: Seq<char>| valid_platform_spec(s)
}

fn is_allowed_strength(s: &String) -> (r: bool)
    ensures
        r == allowed_strength_spec(s@),
{
    let t = s.as_str();
    str_eq(t, "InterfaceBehavior") || str_eq(t, "LogicalStateTransition") || str_eq(t, "ProcessCrashRecovery")
        || str_eq(t, "FilesystemDurability") || str_eq(t, "HardwarePowerLoss") || str_eq(t, "CrossPlatform")
}

fn is_valid_platform(s: &String) -> (r: bool)
    ensures
        r == valid_platform_spec(s@),
{
    str_eq(s.as_str(), "macos_native") || str_eq(s.as_str(), "windows_github_actions")
}

fn first_unrecognized_strength(v: &Vec<String>) -> (r: Option<usize>)
    ensures
        match r {
            Some(k) => k < v@.len() && first_failing(vec_view(v@), strength_ok()) == Some(v@[k as int]@),
            None => first_failing(vec_view(v@), strength_ok()) is None,
        },
{
    let ghost vv = vec_view(v@);
    let mut k: usize = 0;
    proof {
        assert(vv.skip(0) =~= vv);
    }
    while k < v.len()
        invariant
            k <= v.len(),
            vv == vec_view(v@),
            first_failing(vv, strength_ok()) == first_failing(vv.skip(k as int), strength_ok()),
        decreases v.len() - k,
    {
        proof {
            assert(vv.skip(k as int)[0] == vv[k as int]);
            assert(vv.skip(k as int).drop_first() =~= vv.skip(k + 1));
        }
        if !is_allowed_strength(&v[k]) {
            return Some(k);
        }
        k = k + 1;
    }
    proof {
        assert(vv.skip(k as int).len() == 0);
    }
    None
}

fn first_invalid_platform(v: &Vec<String>) -> (r: Option<usize>)
    ensures
        match r {
            Some(k) => k < v@.len() && first_failing(vec_view(v@), platform_ok()) == Some(v@[k as int]@),
            None => first_failing(vec_view(v@), platform_ok()) is None,
        },
{
    let ghost vv = vec_view(v@);
    let mut k: usize = 0;
    proof {
        assert(vv.skip(0) =~= vv);
    }
    while k < v.len()
        invariant
            k <= v.len(),
            vv == vec_view(v@),
            first_failing(vv, platform_ok()) == first_failing(vv.skip(k as int), platform_ok()),
        decreases v.len() - k,
    {
        proof {
            assert(vv.skip(k as int)[0] == vv[k as int]);
            assert(vv.skip(k as int).drop_first() =~= vv.skip(k + 1));
        }
        if !is_valid_platform(&v[k]) {
            return Some(k);
        }
        k = k + 1;
    }
    proof {
        assert(vv.skip(k as int).len() == 0);
    }
    None
}

fn contains_text(v: &Vec<String>, x: &str) -> (r: bool)
    ensures
        r == vec_view(v@).contains(x@),
{
    let ghost vv = vec_view(v@);
    let mut k: usize = 0;
    while k < v.len()
        invariant
            k <= v.len(),
            vv == vec_view(v@),
            forall|j: int| 0 <= j < k ==> vv[j] != x@,
        decreases v.len() - k,
    {
        if str_eq(v[k].as_str(), x) {
            proof {
                assert(vv[k as int] == x@);
            }
            return true;
        }
        k = k + 1;
    }
    false
}

/// The first durability claim a process-interruption scenario fails to prohibit.
pub open spec fn missing_prohibition(claims: Seq<Seq<char>>) -> Option<Seq<char>> {
    if !claims.contains("FilesystemDurability"@) {
        Some("FilesystemDurability"@)
    } else if !claims.contains("HardwarePowerLoss"@) {
        Some("HardwarePowerLoss"@)
    } else if !claims.contains("OsCrash"@) {
        Some("OsCrash"@)
    } else {
        None
    }
}

/// The fault layer interrupts the writing process.
pub open spec fn is_process_interruption(l: FaultLayer) -> bool {
    l == FaultLayer::ChildProcessAbortOrKill || l == FaultLayer::ProcessCrashRecovery
}

/// Whether a scenario's fault layer, fault point and claims agree.
pub open spec fn fault_semantics_spec(s: ScenarioContractV3View) -> Result<(), Seq<char>> {
    if s.fault_layer == FaultLayer::NoFault && s.fault_point != "none"@ {
        Err("scenario "@ + s.scenario_id + " with NoFault must use fault_point none"@)
    } else if is_process_interruption(s.fault_layer) && s.fault_point == "none"@ {
        Err("scenario "@ + s.scenario_id + " requires explicit fault point"@)
    } else if is_process_interruption(s.fault_layer) && missing_prohibition(s.prohibited_claims) is Some {
        Err(
            "process interruption scenario "@ + s.scenario_id + " must prohibit "@ + missing_prohibition(
                s.prohibited_claims,
            ).unwrap() + " claims"@,
        )
    } else if s.allowed_evidence_strength.contains("ProcessCrashRecovery"@) && !is_process_interruption(
        s.fault_layer,
    ) {
        Err("scenario "@ + s.scenario_id + " claims ProcessCrashRecovery without process interruption fault"@)
    } else if s.scenario_id == "concurrent-writer-attempt"@ && s.fault_layer != FaultLayer::MultiProcessConcurrency {
        Err("concurrent-writer-attempt must use MultiProcessConcurrency"@)
    } else if s.scenario_id == "writer-crash-and-takeover"@ && s.fault_layer != FaultLayer::ChildProcessAbortOrKill {
        Err("writer-crash-and-takeover must use ChildProcessAbortOrKill"@)
    } else if s.scenario_id == "interrupted-compaction"@ && s.requirement
        != ScenarioRequirementLevel::CapabilityDependent {
        Err("interrupted-compaction must be capability-dependent"@)
    } else {
        Ok(())
    }
}

/// The result of a text-reporting check, as a value.
pub open spec fn text_result_view(r: Result<(), String>) -> Result<(), Seq<char>> {
    match r {
        Ok(_) => Ok(()),
        Err(e) => Err(e@),
    }
}

fn scenario_message(prefix: &str, id: &String, suffix: &str) -> (r: String)
    ensures
        r@ == prefix@ + id@ + suffix@,
{
    concat3(prefix, id.as_str(), suffix)
}

fn validate_fault_semantics(s: &ScenarioContractV3) -> (r: Result<(), String>)
    ensures
        text_result_view(r) == fault_semantics_spec(s@),
{
    let interruption = s.fault_layer == FaultLayer::ChildProcessAbortOrKill || s.fault_layer
        == FaultLayer::ProcessCrashRecovery;
    let no_point = str_eq(s.fault_point.as_str(), "none");
    if s.fault_layer == FaultLayer::NoFault && !no_point {
        return Err(scenario_message("scenario ", &s.scenario_id, " with NoFault must use fault_point none"));
    }
    if interruption && no_point {
        return Err(scenario_message("scenario ", &s.scenario_id, " requires explicit fault point"));
    }
    if interruption {
        let missing = if !contains_text(&s.prohibited_claims, "FilesystemDurability") {
            Some("FilesystemDurability")
        } else if !contains_text(&s.prohibited_claims, "HardwarePowerLoss") {
            Some("HardwarePowerLoss")
        } else if !contains_text(&s.prohibited_claims, "OsCrash") {
            Some("OsCrash")
        } else {
            None
        };
        match missing {
            Some(claim) => {
                let head = scenario_message("process interruption scenario ", &s.scenario_id, " must prohibit ");
                return Err(concat3(head.as_str(), claim, " claims"));
            },
            None => {},
        }
    }
    if contains_text(&s.allowed_evidence_strength, "ProcessCrashRecovery") && !interruption {
        return Err(
            scenario_message(
                "scenario ",
                &s.scenario_id,
                " claims ProcessCrashRecovery without process interruption fault",
            ),
        );
    }
    if str_eq(s.scenario_id.as_str(), "concurrent-writer-attempt") && s.fault_layer
        != FaultLayer::MultiProcessConcurrency {
        return Err(String::from_str("concurrent-writer-attempt must use MultiProcessConcurrency"));
    }
    if str_eq(s.scenario_id.as_str(), "writer-crash-and-takeover") && s.fault_layer
        != FaultLayer::ChildProcessAbortOrKill {
        return Err(String::from_str("writer-crash-and-takeover must use ChildProcessAbortOrKill"));
    }
    if str_eq(s.scenario_id.as_str(), "interrupted-compaction") && s.requirement
        != ScenarioRequirementLevel::CapabilityDependent {
        return Err(String::from_str("interrupted-compaction must be capability-dependent"));
    }
    Ok(())
}

/// What an unknown-newer-format scenario must declare of open access.
pub open spec fn newer_format_spec(s: ScenarioContractV3View) -> Result<(), Seq<char>> {
    if s.writable_open {
        Err("unknown-newer-format must forbid writable open"@)
    } else {
        match s.read_only_open {
            ReadOnlyOpenPolicyView::ConditionallyAllowed { required_condition } => if required_condition
                != "interpretation_demonstrably_safe"@ {
                Err("unknown-newer-format must declare a demonstrably-safe condition"@)
            } else {
                Ok(())
            },
            ReadOnlyOpenPolicyView::Allowed => Err(
                "unknown-newer-format must not unconditionally allow read-only open"@,
            ),
            ReadOnlyOpenPolicyView::Forbidden => Err(
                "unknown-newer-format must declare conditionally safe read-only access"@,
            ),
        }
    }
}

fn validate_newer_format(s: &ScenarioContractV3) -> (r: Result<(), String>)
    ensures
        text_result_view(r) == newer_format_spec(s@),
{
    if s.writable_open {
        return Err(String::from_str("unknown-newer-format must forbid writable open"));
    }
    match &s.read_only_open {
        ReadOnlyOpenPolicy::ConditionallyAllowed { required_condition } => {
            if !str_eq(required_condition.as_str(), "interpretation_demonstrably_safe") {
                Err(String::from_str("unknown-newer-format must declare a demonstrably-safe condition"))
            } else {
                Ok(())
            }
        },
        ReadOnlyOpenPolicy::Allowed => Err(
            String::from_str("unknown-newer-format must not unconditionally allow read-only open"),
        ),
        ReadOnlyOpenPolicy::Forbidden => Err(
            String::from_str("unknown-newer-format must declare conditionally safe read-only access"),
        ),
    }
}

/// The checks of one scenario that need nothing but the scenario itself, in order.
pub open spec fn scenario_fields_spec(s: ScenarioContractV3View) -> Result<(), Seq<char>> {
    if is_blank_spec(s.preconditions) {
        Err("scenario "@ + s.scenario_id + " missing preconditions"@)
    } else if is_blank_spec(s.authoritative_command) {
        Err("scenario "@ + s.scenario_id + " missing authoritative command"@)
    } else if s.oracle_assertions.len() == 0 {
        Err("scenario "@ + s.scenario_id + " missing oracle assertions"@)
    } else if any_blank(s.oracle_assertions) {
        Err("scenario "@ + s.scenario_id + " has an empty oracle assertion"@)
    } else if s.allowed_evidence_strength.len() == 0 {
        Err("scenario "@ + s.scenario_id + " missing allowed evidence strength"@)
    } else if any_blank(s.allowed_evidence_strength) {
        Err("scenario "@ + s.scenario_id + " has an empty evidence strength"@)
    } else if first_failing(s.allowed_evidence_strength, strength_ok()) is Some {
        Err(
            "scenario "@ + s.scenario_id + " has unrecognized evidence strength "@ + first_failing(
                s.allowed_evidence_strength,
                strength_ok(),
            ).unwrap(),
        )
    } else if fault_semantics_spec(s) is Err {
        fault_semantics_spec(s)
    } else if s.expected_recovery_class == ExpectedRecoveryClass::SafeAutomaticRecovery && !s.reopen_required {
        Err("recovery scenario "@ + s.scenario_id + " must require reopen"@)
    } else if s.scenario_id == "unknown-newer-format"@ && newer_format_spec(s) is Err {
        newer_format_spec(s)
    } else if s.requirement == ScenarioRequirementLevel::CapabilityDependent && match s.capability_requirement {
        None => true,
        Some(c) => is_blank_spec(c),
    } {
        Err("capability-dependent scenario "@ + s.scenario_id + " missing capability requirement"@)
    } else if s.platform_requirement.len() == 0 {
        Err("scenario "@ + s.scenario_id + " missing platform requirement"@)
    } else if first_failing(s.platform_requirement, platform_ok()) is Some {
        Err(
            "scenario "@ + s.scenario_id + " has invalid platform label "@ + first_failing(
                s.platform_requirement,
                platform_ok(),
            ).unwrap(),
        )
    } else {
        Ok(())
    }
}

#[verifier::spinoff_prover]
#[verifier::rlimit(40)]
fn validate_scenario_fields(s: &ScenarioContractV3) -> (r: Result<(), String>)
    ensures
        text_result_view(r) == scenario_fields_spec(s@),
{
    let id = &s.scenario_id;
    if is_blank(s.preconditions.as_str()) {
        return Err(scenario_message("scenario ", id, " missing preconditions"));
    }
    if is_blank(s.authoritative_command.as_str()) {
        return Err(scenario_message("scenario ", id, " missing authoritative command"));
    }
    if s.oracle_assertions.len() == 0 {
        return Err(scenario_message("scenario ", id, " missing oracle assertions"));
    }
    if any_blank_exec(&s.oracle_assertions) {
        return Err(scenario_message("scenario ", id, " has an empty oracle assertion"));
    }
    if s.allowed_evidence_strength.len() == 0 {
        return Err(scenario_message("scenario ", id, " missing allowed evidence strength"));
    }
    if any_blank_exec(&s.allowed_evidence_strength) {
        return Err(scenario_message("scenario ", id, " has an empty evidence strength"));
    }
    match first_unrecognized_strength(&s.allowed_evidence_strength) {
        Some(k) => {
            let head = scenario_message("scenario ", id, " has unrecognized evidence strength ");
            return Err(concat2(head.as_str(), s.allowed_evidence_strength[k].as_str()));
        },
        None => {},
    }
    match validate_fault_semantics(s) {
        Err(e) => {
            return Err(e);
        },
        Ok(()) => {},
    }
    if s.expected_recovery_class == ExpectedRecoveryClass::SafeAutomaticRecovery && !s.reopen_required {
        return Err(scenario_message("recovery scenario ", id, " must require reopen"));
    }
    if str_eq(id.as_str(), "unknown-newer-format") {
        match validate_newer_format(s) {
            Err(e) => {
                return Err(e);
            },
            Ok(()) => {},
        }
    }
    if s.requirement == ScenarioRequirementLevel::CapabilityDependent {
        let missing = match &s.capability_requirement {
            None => true,
            Some(c) => is_blank(c.as_str()),
        };
        if missing {
            return Err(scenario_message("capability-dependent scenario ", id, " missing capability requirement"));
        }
    }
    if s.platform_requirement.len() == 0 {
        return Err(scenario_message("scenario ", id, " missing platform requirement"));
    }
    match first_invalid_platform(&s.platform_requirement) {
        Some(k) => {
            let head = scenario_message("scenario ", id, " has invalid platform label ");
            return Err(concat2(head.as_str(), s.platform_requirement[k].as_str()));
        },
        None => {},
    }
    Ok(())
}

/// The check of scenario `i` of a catalog: its identity must be new, then its fields must hold.
pub open spec fn scenario_check_spec(scenarios: Seq<ScenarioContractV3View>, i: int) -> Result<(), Seq<char>> {
    if exists|j: int| 0 <= j < i && scenario_key(#[trigger] scenarios[j]) == scenario_key(scenarios[i]) {
        Err("duplicate scenario identity: "@ + scenarios[i].scenario_id)
    } else {
        scenario_fields_spec(scenarios[i])
    }
}

/// The first failing check among the first `n` scenarios.
pub open spec fn scan_upto(scenarios: Seq<ScenarioContractV3View>, n: int) -> Result<(), Seq<char>>
    decreases n,
{
    if n <= 0 {
        Ok(())
    } else {
        match scan_upto(scenarios, n - 1) {
            Err(e) => Err(e),
            Ok(_) => scenario_check_spec(scenarios, n - 1),
        }
    }
}

proof fn lemma_scan_err_persists(scenarios: Seq<ScenarioContractV3View>, n: int, m: int)
    requires
        0 <= n <= m,
        scan_upto(scenarios, n) is Err,
    ensures
        scan_upto(scenarios, m) == scan_upto(scenarios, n),
    decreases m - n,
{
    if m > n {
        lemma_scan_err_persists(scenarios, n, m - 1);
    }
}

/// Every required scenario of the reference catalog appears, by identity, among the scenarios.
pub open spec fn required_present(
    scenarios: Seq<ScenarioContractV3View>,
    required: Seq<ScenarioContractV3View>,
) -> bool {
    forall|r: int|
        0 <= r < required.len() && (#[trigger] required[r]).requirement == ScenarioRequirementLevel::Required
            ==> exists|j: int| 0 <= j < scenarios.len() && scenario_key(#[trigger] scenarios[j]) == scenario_key(required[r])
}

/// Whether a list of scenarios is a valid catalog that covers every required
/// scenario of the reference catalog; the first failure's message otherwise.
pub open spec fn catalog_check_spec(
    scenarios: Seq<ScenarioContractV3View>,
    required: Seq<ScenarioContractV3View>,
) -> Result<(), Seq<char>> {
    match scan_upto(scenarios, scenarios.len() as int) {
        Err(e) => Err(e),
        Ok(_) => if required_present(scenarios, required) {
            Ok(())
        } else {
            Err("scenario catalog is missing a required scenario"@)
        },
    }
}

fn validate_scenario_contract_catalog(
    scenarios: &Vec<ScenarioContractV3>,
    required_catalog: &Vec<ScenarioContractV3>,
) -> (r: Result<(), String>)
    ensures
        text_result_view(r) == catalog_check_spec(vec_view(scenarios@), vec_view(required_catalog@)),
{
    let ghost sv = vec_view(scenarios@);
    let ghost rv = vec_view(required_catalog@);
    let mut ids: Vec<String> = Vec::new();
    let mut i: usize = 0;
    while i < scenarios.len()
        invariant
            i <= scenarios.len(),
            sv == vec_view(scenarios@),
            ids@.len() == i,
            forall|j: int| 0 <= j < i ==> (#[trigger] ids@[j])@ == scenario_key(sv[j]),
            scan_upto(sv, i as int) == Ok::<(), Seq<char>>(()),
        decreases scenarios.len() - i,
    {
        let scenario = &scenarios[i];
        proof {
            assert(sv[i as int] == scenario@);
        }
        let key = scenario_key_text(scenario);
        let mut seen = false;
        let mut j: usize = 0;
        while j < i
            invariant
                j <= i < scenarios.len(),
                sv == vec_view(scenarios@),
                ids@.len() == i,
                forall|k: int| 0 <= k < i ==> (#[trigger] ids@[k])@ == scenario_key(sv[k]),
                key@ == scenario_key(sv[i as int]),
                seen == exists|k: int| 0 <= k < j && scenario_key(#[trigger] sv[k]) == scenario_key(sv[i as int]),
            decreases i - j,
        {
            if ids[j].same_as(&key) {
                seen = true;
            }
            proof {
                if scenario_key(sv[j as int]) == scenario_key(sv[i as int]) {
                    assert(exists|k: int| 0 <= k < j + 1 && scenario_key(#[trigger] sv[k]) == scenario_key(sv[i as int]));
                }
            }
            j = j + 1;
        }
        if seen {
            proof {
                assert(scan_upto(sv, i + 1) is Err);
                lemma_scan_err_persists(sv, i + 1, sv.len() as int);
            }
            return Err(concat2("duplicate scenario identity: ", scenario.scenario_id.as_str()));
        }
        match validate_scenario_fields(scenario) {
            Err(e) => {
                proof {
                    assert(scan_upto(sv, i + 1) is Err);
                    lemma_scan_err_persists(sv, i + 1, sv.len() as int);
                }
                return Err(e);
            },
            Ok(()) => {},
        }
        ids.push(key);
        i = i + 1;
    }
    let mut r: usize = 0;
    while r < required_catalog.len()
        invariant
            r <= required_catalog.len(),
            i == scenarios.len(),
            sv == vec_view(scenarios@),
            rv == vec_view(required_catalog@),
            ids@.len() == i,
            forall|k: int| 0 <= k < i ==> (#[trigger] ids@[k])@ == scenario_key(sv[k]),
            scan_upto(sv, i as int) == Ok::<(), Seq<char>>(()),
            forall|q: int|
                0 <= q < r && (#[trigger] rv[q]).requirement == ScenarioRequirementLevel::Required ==> exists|j: int|
                    0 <= j < sv.len() && scenario_key(#[trigger] sv[j]) == scenario_key(rv[q]),
        decreases required_catalog.len() - r,
    {
        let req = &required_catalog[r];
        proof {
            assert(rv[r as int] == req@);
        }
        if req.requirement == ScenarioRequirementLevel::Required {
            let key = scenario_key_text(req);
            let mut found = false;
            let mut j: usize = 0;
            while j < ids.len()
                invariant
                    j <= ids.len() == sv.len(),
                    forall|k: int| 0 <= k < ids.len() ==> (#[trigger] ids@[k])@ == scenario_key(sv[k]),
                    found == exists|k: int| 0 <= k < j && scenario_key(#[trigger] sv[k]) == key@,
                decreases ids.len() - j,
            {
                if ids[j].same_as(&key) {
                    found = true;
                }
                proof {
                    if scenario_key(sv[j as int]) == key@ {
                        assert(exists|k: int| 0 <= k < j + 1 && scenario_key(#[trigger] sv[k]) == key@);
                    }
                }
                j = j + 1;
            }
            if !found {
                proof {
                    assert(!required_present(sv, rv));
                }
                return Err(String::from_str("scenario catalog is missing a required scenario"));
            }
        }
        r = r + 1;
    }
    Ok(())
}

/// Checks a catalog against the earlier reference catalog.
pub fn validate_scenario_contracts_v3(scenarios: &Vec<ScenarioContractV3>) -> (r: Result<(), String>)
    ensures
        text_result_view(r) == catalog_check_spec(vec_view(scenarios@), catalog_v3_spec()),
{
    validate_scenario_contract_catalog(scenarios, &scenario_contract_v3())
}

/// Checks a catalog against the current reference catalog.
pub fn validate_scenario_contracts_v4(scenarios: &Vec<ScenarioContractV3>) -> (r: Result<(), String>)
    ensures
        text_result_view(r) == catalog_check_spec(vec_view(scenarios@), catalog_v4_spec()),
{
    validate_scenario_contract_catalog(scenarios, &scenario_contract_v4())
}

/// Checks the earlier catalog against itself.
pub fn validate_scenario_contract_v3() -> (r: Result<(), String>)
    ensures
        text_result_view(r) == catalog_check_spec(catalog_v3_spec(), catalog_v3_spec()),
{
    validate_scenario_contracts_v3(&scenario_contract_v3())
}

/// The position of the first scenario with the given id.
pub open spec fn first_scenario_index(scenarios: Seq<ScenarioContractV3View>, id: Seq<char>) -> Option<nat>
    decreases scenarios.len(),
{
    if scenarios.len() == 0 {
        None
    } else if scenarios[0].scenario_id == id {
        Some(0)
    } else {
        match first_scenario_index(scenarios.drop_first(), id) {
            Some(i) => Some(i + 1),
            None => None,
        }
    }
}

/// What the current catalog must say of one authoritative corruption scenario.
pub open spec fn corruption_semantics_one(scenarios: Seq<ScenarioContractV3View>, id: Seq<char>) -> Result<(), Seq<char>> {
    match first_scenario_index(scenarios, id) {
        None => Err("v4 catalog missing "@ + id),
        Some(k) => {
            let s = scenarios[k as int];
            if s.scenario_version != 2 {
                Err(id + " must be scenario_version 2 in v4"@)
            } else if s.expected_open_state != ExpectedOpenState::Unrecoverable {
                Err(id + " must expect unrecoverable open state in v4"@)
            } else if s.read_only_open != ReadOnlyOpenPolicyView::Forbidden {
                Err(id + " must forbid read-only open in v4"@)
            } else if s.writable_open {
                Err(id + " must forbid writable open in v4"@)
            } else if s.expected_recovery_class != ExpectedRecoveryClass::ManualReviewRequired {
                Err(id + " must expect manual_review_required recovery in v4"@)
            } else if s.expected_durable_boundary != "corruption_detected_fail_closed"@ {
                Err(id + " must declare fail-closed durable boundary"@)
            } else {
                Ok(())
            }
        },
    }
}

/// What the current catalog must say of both authoritative corruption scenarios.
pub open spec fn corruption_semantics_spec(scenarios: Seq<ScenarioContractV3View>) -> Result<(), Seq<char>> {
    match corruption_semantics_one(scenarios, "canonical-reference-corruption"@) {
        Err(e) => Err(e),
        Ok(_) => corruption_semantics_one(scenarios, "source-locator-corruption"@),
    }
}

fn scenario_position(scenarios: &Vec<ScenarioContractV3>, id: &str) -> (r: Option<usize>)
    ensures
        match r {
            Some(k) => k < scenarios@.len() && first_scenario_index(vec_view(scenarios@), id@) == Some(k as nat),
            None => first_scenario_index(vec_view(scenarios@), id@) is None,
        },
{
    let ghost sv = vec_view(scenarios@);
    let mut k: usize = 0;
    proof {
        assert(sv.skip(0) =~= sv);
    }
    while k < scenarios.len()
        invariant
            k <= scenarios.len(),
            sv == vec_view(scenarios@),
            first_scenario_index(sv, id@) == match first_scenario_index(sv.skip(k as int), id@) {
                Some(i) => Some((i + k) as nat),
                None => None::<nat>,
            },
        decreases scenarios.len() - k,
    {
        proof {
            assert(sv.skip(k as int)[0] == sv[k as int]);
            assert(sv.skip(k as int).drop_first() =~= sv.skip(k + 1));
        }
        if str_eq(scenarios[k].scenario_id.as_str(), id) {
            return Some(k);
        }
        k = k + 1;
    }
    proof {
        assert(sv.skip(k as int).len() == 0);
    }
    None
}

fn check_corruption_scenario(scenarios: &Vec<ScenarioContractV3>, id: &str) -> (r: Result<(), String>)
    ensures
        text_result_view(r) == corruption_semantics_one(vec_view(scenarios@), id@),
{
    let k = match scenario_position(scenarios, id) {
        Some(k) => k,
        None => {
            return Err(concat2("v4 catalog missing ", id));
        },
    };
    let s = &scenarios[k];
    proof {
        assert(vec_view(scenarios@)[k as int] == s@);
    }
    if s.scenario_version != 2 {
        return Err(concat2(id, " must be scenario_version 2 in v4"));
    }
    if s.expected_open_state != ExpectedOpenState::Unrecoverable {
        return Err(concat2(id, " must expect unrecoverable open state in v4"));
    }
    match &s.read_only_open {
        ReadOnlyOpenPolicy::Forbidden => {},
        _ => {
            return Err(concat2(id, " must forbid read-only open in v4"));
        },
    }
    if s.writable_open {
        return Err(concat2(id, " must forbid writable open in v4"));
    }
    if s.expected_recovery_class != ExpectedRecoveryClass::ManualReviewRequired {
        return Err(concat2(id, " must expect manual_review_required recovery in v4"));
    }
    if !str_eq(s.expected_durable_boundary.as_str(), "corruption_detected_fail_closed") {
        return Err(concat2(id, " must declare fail-closed durable boundary"));
    }
    Ok(())
}

fn validate_v4_authoritative_corruption_semantics(scenarios: &Vec<ScenarioContractV3>) -> (r: Result<(), String>)
    ensures
        text_result_view(r) == corruption_semantics_spec(vec_view(scenarios@)),
{
    check_corruption_scenario(scenarios, "canonical-reference-corruption")?;
    check_corruption_scenario(scenarios, "source-locator-corruption")
}

/// The full check of the current catalog: against itself, its corruption
/// scenarios, then the earlier catalog against itself.
pub open spec fn contract_v4_check_spec() -> Result<(), Seq<char>> {
    match catalog_check_spec(catalog_v4_spec(), catalog_v4_spec()) {
        Err(e) => Err(e),
        Ok(_) => match corruption_semantics_spec(catalog_v4_spec()) {
            Err(e) => Err(e),
            Ok(_) => catalog_check_spec(catalog_v3_spec(), catalog_v3_spec()),
        },
    }
}

/// Checks the current catalog.
pub fn validate_scenario_contract_v4() -> (r: Result<(), String>)
    ensures
        text_result_view(r) == contract_v4_check_spec(),
{
    let scenarios = scenario_contract_v4();
    match validate_scenario_contracts_v4(&scenarios) {
        Err(e) => {
            return Err(e);
        },
        Ok(()) => {},
    }
    match validate_v4_authoritative_corruption_semantics(&scenarios) {
        Err(e) => {
            return Err(e);
        },
        Ok(()) => {},
    }
    validate_scenario_contract_v3()
}

/// Whether a scenario binds every candidate.
pub open spec fn is_required_pred() -> spec_fn(ScenarioContractV3View) -> bool {
    |s: ScenarioContractV3View| s.requirement == ScenarioRequirementLevel::Required
}

/// The id of a scenario.
pub open spec fn scenario_id_of() -> spec_fn(ScenarioContractV3View) -> Seq<char> {
    |s: ScenarioContractV3View| s.scenario_id
}

/// The ids of the current catalog's required scenarios, in catalog order.
pub open spec fn required_ids_spec() -> Seq<Seq<char>> {
    catalog_v4_spec().filter(is_required_pred()).map_values(scenario_id_of())
}

/// The ids of the scenarios that both candidates must pass.
pub fn required_scenario_ids_for_both_candidates() -> (r: Vec<String>)
    ensures
        vec_view(r@) == required_ids_spec(),
{
    let scenarios = scenario_contract_v4();
    let ghost sv = vec_view(scenarios@);
    let mut ids: Vec<String> = Vec::new();
    let mut i: usize = 0;
    proof {
        assert(sv.take(0) =~= Seq::<ScenarioContractV3View>::empty());
        assert(vec_view(ids@) =~= sv.take(0).filter(is_required_pred()).map_values(scenario_id_of()));
    }
    while i < scenarios.len()
        invariant
            i <= scenarios.len(),
            sv == vec_view(scenarios@),
            sv == catalog_v4_spec(),
            vec_view(ids@) == sv.take(i as int).filter(is_required_pred()).map_values(scenario_id_of()),
        decreases scenarios.len() - i,
    {
        let ghost before = vec_view(ids@);
        proof {
            assert(sv.take(i + 1) =~= sv.take(i as int).push(sv[i as int]));
            sv.take(i as int).lemma_filter_push(sv[i as int], is_required_pred());
            assert(sv[i as int] == scenarios@[i as int]@);
        }
        if scenarios[i].requirement == ScenarioRequirementLevel::Required {
            ids.push(scenarios[i].scenario_id.clone());
            proof {
                let ft = sv.take(i as int).filter(is_required_pred());
                assert(ft.push(sv[i as int]).map_values(scenario_id_of()) =~= ft.map_values(scenario_id_of()).push(
                    sv[i as int].scenario_id,
                ));
                assert(vec_view(ids@) =~= sv.take(i + 1).filter(is_required_pred()).map_values(scenario_id_of()));
            }
        } else {
            proof {
                assert(vec_view(ids@) =~= sv.take(i + 1).filter(is_required_pred()).map_values(scenario_id_of()));
            }
        }
        i = i + 1;
    }
    proof {
        assert(sv.take(i as int) =~= sv);
    }
    ids
}

} // verus!
