use voxproof_evidence::durability::{
    durability_experiments, expects_unchanged_authority, logical_fault_verdict, oracle_verdict, trial_id, trial_procedure,
    trial_result, uncrashed_worker_verdict, FaultPoint, InterruptionModel, TrialOutcome, TrialProcedure,
    MIN_TRIALS_PER_POINT,
};

#[test]
fn experiments_never_claim_filesystem_or_power_loss_durability() {
    let experiments = durability_experiments();
    assert_eq!(experiments.len(), 5);
    for e in &experiments {
        assert!(e.denied.iter().any(|d| d == "FilesystemDurability"));
        assert!(e.denied.iter().any(|d| d == "HardwarePowerLoss"));
        assert!(!e.credited.iter().any(|c| c == "FilesystemDurability" || c == "HardwarePowerLoss"));
        assert!(!e.sync_boundary.directory_sync_performed);
    }
    assert_eq!(experiments[1].experiment_id, "pre-commit-process-kill");
    assert_eq!(experiments[1].credited, vec!["InterfaceBehavior".to_owned()]);
    assert_eq!(experiments[2].interruption_model, InterruptionModel::LogicalReturnError);
    assert_eq!(experiments[4].sync_boundary.rename_completed, Some(true));
    assert_eq!(MIN_TRIALS_PER_POINT, 5);
}

#[test]
fn trials_follow_their_experiment() {
    assert_eq!(trial_procedure("post-publication-process-kill"), TrialProcedure::DuplicateCrash);
    assert_eq!(trial_procedure("wal-checkpoint-interrupt"), TrialProcedure::LogicalFault);
    assert_eq!(trial_procedure("pre-commit-process-kill"), TrialProcedure::ApplyCrash);
    assert_eq!(trial_id("pre-commit-process-kill", 12), "pre-commit-process-kill-trial-12");
    assert!(expects_unchanged_authority(FaultPoint::BeforeSqliteCommit));
    assert!(!expects_unchanged_authority(FaultPoint::AfterSqliteCommitBeforeAck));
}

#[test]
fn verdicts_credit_only_what_was_observed() {
    assert_eq!(oracle_verdict(TrialProcedure::ApplyCrash, Some(true)), (TrialOutcome::Passed, None));
    assert_eq!(
        oracle_verdict(TrialProcedure::ApplyCrash, None),
        (TrialOutcome::Failed, Some("oracle mismatch after trial".to_owned()))
    );
    assert_eq!(oracle_verdict(TrialProcedure::DuplicateCrash, Some(false)).0, TrialOutcome::Indeterminate);
    assert_eq!(logical_fault_verdict(true), (TrialOutcome::Passed, None));
    assert_eq!(logical_fault_verdict(false).0, TrialOutcome::Failed);
    assert_eq!(
        uncrashed_worker_verdict(TrialProcedure::ApplyCrash),
        (TrialOutcome::Failed, Some("crash worker exited successfully".to_owned()))
    );
    let experiments = durability_experiments();
    let result = trial_result(&experiments[0], "after-commit", 3, oracle_verdict(TrialProcedure::ApplyCrash, Some(true)), Some(true), 42, "linux");
    assert_eq!(result.trial_id, "post-commit-before-ack-process-kill-trial-3");
    assert_eq!(result.outcome, TrialOutcome::Passed);
    assert_eq!(result.claim_credited, experiments[0].credited);
    assert_eq!(result.claim_denied, experiments[0].denied);
    assert_eq!(result.fault_point, "after-commit");
    assert_eq!(result.elapsed_ms, 42);
}
