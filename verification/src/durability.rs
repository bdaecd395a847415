//! The durability experiments: where each interrupts a SQLite candidate, what
//! a passing trial earns the candidate, and what the evidence never claims;
//! and how a trial's observations become its recorded result. Spawning and
//! killing the worker processes happens outside.
use vstd::prelude::*;
use crate::model::{opt_view, vec_duplicate, vec_view};
use crate::text::{concat2, decimal, decimal_spec};

verus! {

/// The least number of trials run per interruption point.
pub const MIN_TRIALS_PER_POINT: u32 = 5;

/// How a trial interrupts the candidate.
#[derive(Debug, Clone, Copy, PartialEq, Eq, Structural)]
pub enum InterruptionModel {
    ClassAProcessKill,
    LogicalReturnError,
}

/// Where in a SQLite candidate's operation an experiment interrupts it.
#[derive(Debug, Clone, Copy, PartialEq, Eq, Structural)]
pub enum FaultPoint {
    AfterSqliteCommitBeforeAck,
    BeforeSqliteCommit,
    DuringCheckpoint,
    DuringBackupCopy,
    AfterPublishBeforeReturn,
}

/// What had completed at the interruption, as far as the experiment knows.
pub struct SyncBoundaryRecord {
    pub boundary_id: String,
    pub description: String,
    pub commit_returned: Option<bool>,
    pub ack_returned: Option<bool>,
    pub checkpoint_completed: Option<bool>,
    pub rename_completed: Option<bool>,
    pub directory_sync_performed: bool,
}

/// The mathematical value of a [`SyncBoundaryRecord`].
pub struct SyncBoundaryRecordView {
    pub boundary_id: Seq<char>,
    pub description: Seq<char>,
    pub commit_returned: Option<bool>,
    pub ack_returned: Option<bool>,
    pub checkpoint_completed: Option<bool>,
    pub rename_completed: Option<bool>,
    pub directory_sync_performed: bool,
}

impl View for SyncBoundaryRecord {
    type V = SyncBoundaryRecordView;

    open spec fn view(&self) -> SyncBoundaryRecordView {
        SyncBoundaryRecordView {
            boundary_id: self.boundary_id@,
            description: self.description@,
            commit_returned: self.commit_returned,
            ack_returned: self.ack_returned,
            checkpoint_completed: self.checkpoint_completed,
            rename_completed: self.rename_completed,
            directory_sync_performed: self.directory_sync_performed,
        }
    }
}

impl Clone for SyncBoundaryRecord {
    fn clone(&self) -> (r: Self)
        ensures
            r@ == self@,
    {
        SyncBoundaryRecord {
            boundary_id: self.boundary_id.clone(),
            description: self.description.clone(),
            commit_returned: self.commit_returned,
            ack_returned: self.ack_returned,
            checkpoint_completed: self.checkpoint_completed,
            rename_completed: self.rename_completed,
            directory_sync_performed: self.directory_sync_performed,
        }
    }
}

/// How a trial came out.
#[derive(Debug, Clone, Copy, PartialEq, Eq, Structural)]
pub enum TrialOutcome {
    Passed,
    Failed,
    Indeterminate,
}

/// One durability experiment: its interruption point and model, the
/// boundary it stops at, and the claims a passing trial credits and denies.
pub struct DurabilityExperimentSpec {
    pub experiment_id: String,
    pub fault_point: FaultPoint,
    pub interruption_model: InterruptionModel,
    pub sync_boundary: SyncBoundaryRecord,
    pub credited: Vec<String>,
    pub denied: Vec<String>,
}

/// The mathematical value of a [`DurabilityExperimentSpec`].
pub struct DurabilityExperimentSpecView {
    pub experiment_id: Seq<char>,
    pub fault_point: FaultPoint,
    pub interruption_model: InterruptionModel,
    pub sync_boundary: SyncBoundaryRecordView,
    pub credited: Seq<Seq<char>>,
    pub denied: Seq<Seq<char>>,
}

impl View for DurabilityExperimentSpec {
    type V = DurabilityExperimentSpecView;

    open spec fn view(&self) -> DurabilityExperimentSpecView {
        DurabilityExperimentSpecView {
            experiment_id: self.experiment_id@,
            fault_point: self.fault_point,
            interruption_model: self.interruption_model,
            sync_boundary: self.sync_boundary@,
            credited: vec_view(self.credited@),
            denied: vec_view(self.denied@),
        }
    }
}

/// One experiment, as a value.
pub open spec fn experiment(
    id: Seq<char>,
    fault_point: FaultPoint,
    interruption_model: InterruptionModel,
    boundary_id: Seq<char>,
    description: Seq<char>,
    commit_returned: Option<bool>,
    ack_returned: Option<bool>,
    checkpoint_completed: Option<bool>,
    rename_completed: Option<bool>,
    credited: Seq<Seq<char>>,
    denied: Seq<Seq<char>>,
) -> DurabilityExperimentSpecView {
    DurabilityExperimentSpecView {
        experiment_id: id,
        fault_point,
        interruption_model,
        sync_boundary: SyncBoundaryRecordView {
            boundary_id,
            description,
            commit_returned,
            ack_returned,
            checkpoint_completed,
            rename_completed,
            directory_sync_performed: false,
        },
        credited,
        denied,
    }
}

/// The durability experiments, in the order they run.
pub open spec fn experiments_spec() -> Seq<DurabilityExperimentSpecView> {
    seq![
        experiment(
            "post-commit-before-ack-process-kill"@,
            FaultPoint::AfterSqliteCommitBeforeAck,
            InterruptionModel::ClassAProcessKill,
            "after_sqlite_commit_before_adapter_ack"@,
            "SQLite COMMIT completed; adapter ack not returned"@,
            Some(true),
            Some(false),
            None,
            None,
            seq!["ProcessCrashRecovery"@],
            seq!["FilesystemDurability"@, "HardwarePowerLoss"@],
        ),
        experiment(
            "pre-commit-process-kill"@,
            FaultPoint::BeforeSqliteCommit,
            InterruptionModel::ClassAProcessKill,
            "before_sqlite_commit"@,
            "Mutation begun; COMMIT not reached"@,
            Some(false),
            Some(false),
            None,
            None,
            seq!["InterfaceBehavior"@],
            seq!["ProcessCrashRecovery"@, "FilesystemDurability"@, "HardwarePowerLoss"@],
        ),
        experiment(
            "wal-checkpoint-interrupt"@,
            FaultPoint::DuringCheckpoint,
            InterruptionModel::LogicalReturnError,
            "during_wal_checkpoint_truncate"@,
            "Checkpoint hook armed; logical ReturnError"@,
            None,
            None,
            Some(false),
            None,
            seq!["InterfaceBehavior"@],
            seq!["FilesystemDurability"@, "HardwarePowerLoss"@],
        ),
        experiment(
            "duplication-backup-interrupt"@,
            FaultPoint::DuringBackupCopy,
            InterruptionModel::LogicalReturnError,
            "during_online_backup_copy"@,
            "Backup in progress; pre-rename temp state"@,
            None,
            None,
            None,
            Some(false),
            seq!["InterfaceBehavior"@],
            seq!["FilesystemDurability"@, "HardwarePowerLoss"@],
        ),
        experiment(
            "post-publication-process-kill"@,
            FaultPoint::AfterPublishBeforeReturn,
            InterruptionModel::ClassAProcessKill,
            "after_rename_before_return"@,
            "fs::rename completed; no parent directory fsync"@,
            None,
            None,
            Some(true),
            Some(true),
            seq!["ProcessCrashRecovery"@],
            seq!["FilesystemDurability"@, "HardwarePowerLoss"@],
        )
    ]
}

/// Owned copies of the texts.
fn owned_texts(texts: &[&str]) -> (r: Vec<String>)
    ensures
        vec_view(r@) == texts@.map_values(|t: &str| t@),
{
    let mut out: Vec<String> = Vec::new();
    let mut i: usize = 0;
    while i < texts.len()
        invariant
            i <= texts.len(),
            vec_view(out@) == texts@.subrange(0, i as int).map_values(|t: &str| t@),
        decreases texts.len() - i,
    {
        let ghost before = vec_view(out@);
        let t = String::from_str(texts[i]);
        assert(t@ == texts@[i as int]@);
        out.push(t);
        proof {
            assert(vec_view(out@) =~= before.push(texts@[i as int]@));
            assert(texts@.subrange(0, i + 1) =~= texts@.subrange(0, i as int).push(texts@[i as int]));
        }
        i = i + 1;
        proof {
            assert(vec_view(out@) =~= texts@.subrange(0, i as int).map_values(|t: &str| t@));
        }
    }
    proof {
        assert(texts@.subrange(0, texts@.len() as int) =~= texts@);
    }
    out
}

/// One experiment.
fn make_experiment(
    id: &str,
    fault_point: FaultPoint,
    interruption_model: InterruptionModel,
    boundary_id: &str,
    description: &str,
    commit_returned: Option<bool>,
    ack_returned: Option<bool>,
    checkpoint_completed: Option<bool>,
    rename_completed: Option<bool>,
    credited: &[&str],
    denied: &[&str],
) -> (r: DurabilityExperimentSpec)
    ensures
        r@ == experiment(
            id@,
            fault_point,
            interruption_model,
            boundary_id@,
            description@,
            commit_returned,
            ack_returned,
            checkpoint_completed,
            rename_completed,
            credited@.map_values(|t: &str| t@),
            denied@.map_values(|t: &str| t@),
        ),
{
    DurabilityExperimentSpec {
        experiment_id: String::from_str(id),
        fault_point,
        interruption_model,
        sync_boundary: SyncBoundaryRecord {
            boundary_id: String::from_str(boundary_id),
            description: String::from_str(description),
            commit_returned,
            ack_returned,
            checkpoint_completed,
            rename_completed,
            directory_sync_performed: false,
        },
        credited: owned_texts(credited),
        denied: owned_texts(denied),
    }
}

/// The durability experiments, in the order they run.
pub fn durability_experiments() -> (r: Vec<DurabilityExperimentSpec>)
    ensures
        vec_view(r@) == experiments_spec(),
{
    let mut out: Vec<DurabilityExperimentSpec> = Vec::new();
    let a = ["ProcessCrashRecovery"];
    let d = ["FilesystemDurability", "HardwarePowerLoss"];
    let e0 = make_experiment(
        "post-commit-before-ack-process-kill",
        FaultPoint::AfterSqliteCommitBeforeAck,
        InterruptionModel::ClassAProcessKill,
        "after_sqlite_commit_before_adapter_ack",
        "SQLite COMMIT completed; adapter ack not returned",
        Some(true),
        Some(false),
        None,
        None,
        &a,
        &d,
    );
    out.push(e0);
    let b = ["InterfaceBehavior"];
    let d3 = ["ProcessCrashRecovery", "FilesystemDurability", "HardwarePowerLoss"];
    let e1 = make_experiment(
        "pre-commit-process-kill",
        FaultPoint::BeforeSqliteCommit,
        InterruptionModel::ClassAProcessKill,
        "before_sqlite_commit",
        "Mutation begun; COMMIT not reached",
        Some(false),
        Some(false),
        None,
        None,
        &b,
        &d3,
    );
    out.push(e1);
    let e2 = make_experiment(
        "wal-checkpoint-interrupt",
        FaultPoint::DuringCheckpoint,
        InterruptionModel::LogicalReturnError,
        "during_wal_checkpoint_truncate",
        "Checkpoint hook armed; logical ReturnError",
        None,
        None,
        Some(false),
        None,
        &b,
        &d,
    );
    out.push(e2);
    let e3 = make_experiment(
        "duplication-backup-interrupt",
        FaultPoint::DuringBackupCopy,
        InterruptionModel::LogicalReturnError,
        "during_online_backup_copy",
        "Backup in progress; pre-rename temp state",
        None,
        None,
        None,
        Some(false),
        &b,
        &d,
    );
    out.push(e3);
    let e4 = make_experiment(
        "post-publication-process-kill",
        FaultPoint::AfterPublishBeforeReturn,
        InterruptionModel::ClassAProcessKill,
        "after_rename_before_return",
        "fs::rename completed; no parent directory fsync",
        None,
        None,
        Some(true),
        Some(true),
        &a,
        &d,
    );
    out.push(e4);
    proof {
        assert(a@.map_values(|t: &str| t@) =~= seq!["ProcessCrashRecovery"@]);
        assert(b@.map_values(|t: &str| t@) =~= seq!["InterfaceBehavior"@]);
        assert(d@.map_values(|t: &str| t@) =~= seq!["FilesystemDurability"@, "HardwarePowerLoss"@]);
        assert(d3@.map_values(|t: &str| t@) =~= seq![
            "ProcessCrashRecovery"@,
            "FilesystemDurability"@,
            "HardwarePowerLoss"@,
        ]);
        assert(vec_view(out@) =~= experiments_spec());
    }
    out
}

/// No durability experiment claims filesystem durability or survival of a
/// hardware power loss: every one denies both and credits neither.
pub proof fn law_no_filesystem_or_power_loss_claim()
    ensures
        forall|i: int|
            0 <= i < experiments_spec().len() ==> {
                let e = #[trigger] experiments_spec()[i];
                &&& e.denied.contains("FilesystemDurability"@)
                &&& e.denied.contains("HardwarePowerLoss"@)
                &&& !e.credited.contains("FilesystemDurability"@)
                &&& !e.credited.contains("HardwarePowerLoss"@)
            },
{
    reveal_strlit("FilesystemDurability");
    reveal_strlit("HardwarePowerLoss");
    reveal_strlit("ProcessCrashRecovery");
    reveal_strlit("InterfaceBehavior");
    let es = experiments_spec();
    assert forall|i: int| 0 <= i < es.len() implies {
        let e = #[trigger] es[i];
        &&& e.denied.contains("FilesystemDurability"@)
        &&& e.denied.contains("HardwarePowerLoss"@)
        &&& !e.credited.contains("FilesystemDurability"@)
        &&& !e.credited.contains("HardwarePowerLoss"@)
    } by {
        let e = es[i];
        let n = e.denied.len();
        assert(e.denied[n - 2] == "FilesystemDurability"@);
        assert(e.denied[n - 1] == "HardwarePowerLoss"@);
        assert(e.credited.len() == 1);
        assert(e.credited[0] == "ProcessCrashRecovery"@ || e.credited[0] == "InterfaceBehavior"@);
        assert(e.credited[0][0] != "FilesystemDurability"@[0]);
        assert(e.credited[0][0] != "HardwarePowerLoss"@[0]);
        assert(!e.credited.contains("FilesystemDurability"@)) by {
            if e.credited.contains("FilesystemDurability"@) {
                assert(e.credited[0] == "FilesystemDurability"@);
            }
        }
        assert(!e.credited.contains("HardwarePowerLoss"@)) by {
            if e.credited.contains("HardwarePowerLoss"@) {
                assert(e.credited[0] == "HardwarePowerLoss"@);
            }
        }
    }
}

/// The procedure a trial of an experiment follows.
#[derive(Debug, Clone, Copy, PartialEq, Eq, Structural)]
pub enum TrialProcedure {
    DuplicateCrash,
    LogicalFault,
    ApplyCrash,
}

/// The procedure of an experiment's trials: a crash after publishing a
/// duplicate, a logical fault in a checkpoint or backup, or else a crash while
/// applying a command.
pub open spec fn trial_procedure_spec(experiment_id: Seq<char>) -> TrialProcedure {
    if experiment_id == "post-publication-process-kill"@ {
        TrialProcedure::DuplicateCrash
    } else if experiment_id == "wal-checkpoint-interrupt"@ || experiment_id == "duplication-backup-interrupt"@ {
        TrialProcedure::LogicalFault
    } else {
        TrialProcedure::ApplyCrash
    }
}

/// The procedure of an experiment's trials.
pub fn trial_procedure(experiment_id: &str) -> (r: TrialProcedure)
    ensures
        r == trial_procedure_spec(experiment_id@),
{
    if crate::text::str_eq(experiment_id, "post-publication-process-kill") {
        TrialProcedure::DuplicateCrash
    } else if crate::text::str_eq(experiment_id, "wal-checkpoint-interrupt") || crate::text::str_eq(
        experiment_id,
        "duplication-backup-interrupt",
    ) {
        TrialProcedure::LogicalFault
    } else {
        TrialProcedure::ApplyCrash
    }
}

/// `<experiment>-trial-<index>`.
pub open spec fn trial_id_spec(experiment_id: Seq<char>, index: u32) -> Seq<char> {
    experiment_id + "-trial-"@ + decimal_spec(index as nat)
}

/// The id of trial `index` of an experiment.
pub fn trial_id(experiment_id: &str, index: u32) -> (r: String)
    ensures
        r@ == trial_id_spec(experiment_id@, index),
{
    let head = concat2(experiment_id, "-trial-");
    let n = decimal(index as usize);
    concat2(head.as_str(), n.as_str())
}

/// Whether a crash at this point should leave the authority unchanged: only
/// one before the commit.
pub fn expects_unchanged_authority(fault_point: FaultPoint) -> (r: bool)
    ensures
        r == (fault_point == FaultPoint::BeforeSqliteCommit),
{
    fault_point == FaultPoint::BeforeSqliteCommit
}

/// The verdict of a crash trial whose worker exited successfully: the crash
/// never happened, so the trial fails.
pub fn uncrashed_worker_verdict(procedure: TrialProcedure) -> (r: (TrialOutcome, Option<String>))
    ensures
        r.0 == TrialOutcome::Failed,
        opt_view(r.1) == Some(
            if procedure == TrialProcedure::DuplicateCrash {
                "duplicate crash worker exited successfully"@
            } else {
                "crash worker exited successfully"@
            },
        ),
{
    if procedure == TrialProcedure::DuplicateCrash {
        (TrialOutcome::Failed, Some(String::from_str("duplicate crash worker exited successfully")))
    } else {
        (TrialOutcome::Failed, Some(String::from_str("crash worker exited successfully")))
    }
}

/// The verdict of a crash trial from the oracle's comparison of the
/// reopened authority with what it should hold: passed only on agreement; a
/// crash while applying otherwise fails, a crash after publishing a duplicate
/// is undetermined.
pub fn oracle_verdict(procedure: TrialProcedure, oracle_passed: Option<bool>) -> (r: (TrialOutcome, Option<String>))
    ensures
        oracle_passed == Some(true) ==> r.0 == TrialOutcome::Passed && r.1 is None,
        oracle_passed != Some(true) && procedure == TrialProcedure::DuplicateCrash ==> r.0 == TrialOutcome::Indeterminate
            && opt_view(r.1) == Some("destination not readable after post-publish crash"@),
        oracle_passed != Some(true) && procedure != TrialProcedure::DuplicateCrash ==> r.0 == TrialOutcome::Failed
            && opt_view(r.1) == Some("oracle mismatch after trial"@),
{
    if oracle_passed == Some(true) {
        (TrialOutcome::Passed, None)
    } else if procedure == TrialProcedure::DuplicateCrash {
        (TrialOutcome::Indeterminate, Some(String::from_str("destination not readable after post-publish crash")))
    } else {
        (TrialOutcome::Failed, Some(String::from_str("oracle mismatch after trial")))
    }
}

/// The verdict of a logical-fault trial: it passes when the armed fault made
/// the operation fail.
pub fn logical_fault_verdict(operation_failed: bool) -> (r: (TrialOutcome, Option<String>))
    ensures
        operation_failed ==> r.0 == TrialOutcome::Passed && r.1 is None,
        !operation_failed ==> r.0 == TrialOutcome::Failed && opt_view(r.1) == Some("expected fault did not trigger"@),
{
    if operation_failed {
        (TrialOutcome::Passed, None)
    } else {
        (TrialOutcome::Failed, Some(String::from_str("expected fault did not trigger")))
    }
}

/// The recorded result of one trial.
pub struct DurabilityTrialResult {
    pub trial_id: String,
    pub experiment_id: String,
    pub platform_label: String,
    pub trial_index: u32,
    pub interruption_model: InterruptionModel,
    pub sync_boundary: SyncBoundaryRecord,
    pub fault_point: String,
    pub outcome: TrialOutcome,
    pub oracle_passed: Option<bool>,
    pub claim_credited: Vec<String>,
    pub claim_denied: Vec<String>,
    pub failure_reason: Option<String>,
    pub elapsed_ms: u128,
}

/// The mathematical value of a [`DurabilityTrialResult`].
pub struct DurabilityTrialResultView {
    pub trial_id: Seq<char>,
    pub experiment_id: Seq<char>,
    pub platform_label: Seq<char>,
    pub trial_index: u32,
    pub interruption_model: InterruptionModel,
    pub sync_boundary: SyncBoundaryRecordView,
    pub fault_point: Seq<char>,
    pub outcome: TrialOutcome,
    pub oracle_passed: Option<bool>,
    pub claim_credited: Seq<Seq<char>>,
    pub claim_denied: Seq<Seq<char>>,
    pub failure_reason: Option<Seq<char>>,
    pub elapsed_ms: u128,
}

impl View for DurabilityTrialResult {
    type V = DurabilityTrialResultView;

    open spec fn view(&self) -> DurabilityTrialResultView {
        DurabilityTrialResultView {
            trial_id: self.trial_id@,
            experiment_id: self.experiment_id@,
            platform_label: self.platform_label@,
            trial_index: self.trial_index,
            interruption_model: self.interruption_model,
            sync_boundary: self.sync_boundary@,
            fault_point: self.fault_point@,
            outcome: self.outcome,
            oracle_passed: self.oracle_passed,
            claim_credited: vec_view(self.claim_credited@),
            claim_denied: vec_view(self.claim_denied@),
            failure_reason: opt_view(self.failure_reason),
            elapsed_ms: self.elapsed_ms,
        }
    }
}

/// The result recorded for trial `trial_index` of an experiment: the
/// experiment's boundary and claims, the trial's verdict and observation.
/// `fault_id` is the interruption point's id as the fault hooks name it.
pub fn trial_result(
    spec: &DurabilityExperimentSpec,
    fault_id: &str,
    trial_index: u32,
    verdict: (TrialOutcome, Option<String>),
    oracle_passed: Option<bool>,
    elapsed_ms: u128,
    platform_label: &str,
) -> (r: DurabilityTrialResult)
    ensures
        r@ == (DurabilityTrialResultView {
            trial_id: trial_id_spec(spec@.experiment_id, trial_index),
            experiment_id: spec@.experiment_id,
            platform_label: platform_label@,
            trial_index,
            interruption_model: spec@.interruption_model,
            sync_boundary: spec@.sync_boundary,
            fault_point: fault_id@,
            outcome: verdict.0,
            oracle_passed,
            claim_credited: spec@.credited,
            claim_denied: spec@.denied,
            failure_reason: opt_view(verdict.1),
            elapsed_ms,
        }),
{
    let credited = vec_duplicate(&spec.credited);
    let denied = vec_duplicate(&spec.denied);
    DurabilityTrialResult {
        trial_id: trial_id(spec.experiment_id.as_str(), trial_index),
        experiment_id: spec.experiment_id.clone(),
        platform_label: String::from_str(platform_label),
        trial_index,
        interruption_model: spec.interruption_model,
        sync_boundary: spec.sync_boundary.clone(),
        fault_point: String::from_str(fault_id),
        outcome: verdict.0,
        oracle_passed,
        claim_credited: credited,
        claim_denied: denied,
        failure_reason: verdict.1,
        elapsed_ms,
    }
}

} // verus!
