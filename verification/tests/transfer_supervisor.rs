use buzz_transfer::agent_transfer::{Executor, TransferCommand, TransferPhase, TransferRecord};
use buzz_transfer::transfer_supervisor::{
    command_for, decide, RuntimeObservation, RuntimeRole, SupervisorAction,
};

fn record() -> TransferRecord {
    TransferRecord::new(
        "community",
        "agent",
        "operation",
        Executor::new("source-1", "server").expect("source"),
        Executor::new("target-1", "computer").expect("target"),
        1,
    )
    .expect("record")
}

#[test]
fn source_starts_with_drain_intent() {
    let decision = decide(&record(), "source-1");
    assert_eq!(decision.role, RuntimeRole::Source);
    assert_eq!(decision.action, SupervisorAction::DrainSource);
}

#[test]
fn target_waits_then_activates_and_verifies() {
    let mut transfer = record();
    assert_eq!(
        decide(&transfer, "target-1").action,
        SupervisorAction::WaitForSource
    );
    transfer.phase = TransferPhase::Activating;
    assert_eq!(
        decide(&transfer, "target-1").action,
        SupervisorAction::ActivateTarget
    );
    transfer.phase = TransferPhase::Verifying;
    assert_eq!(
        decide(&transfer, "target-1").action,
        SupervisorAction::VerifyTarget
    );
}

#[test]
fn source_grants_target_after_quiescence() {
    let mut transfer = record();
    transfer.phase = TransferPhase::Draining;
    assert_eq!(
        command_for(
            &transfer,
            "source-1",
            RuntimeObservation {
                active_work: 1,
                accepting_work: false,
                ready: false,
            },
        ),
        None
    );
    assert_eq!(
        command_for(
            &transfer,
            "source-1",
            RuntimeObservation {
                active_work: 0,
                accepting_work: false,
                ready: false,
            },
        ),
        Some(TransferCommand::ConfirmSourceQuiesced)
    );
    transfer.phase = TransferPhase::SourceQuiesced;
    assert_eq!(
        command_for(&transfer, "source-1", RuntimeObservation::default()),
        Some(TransferCommand::ActivateTarget)
    );
}

#[test]
fn target_confirms_only_after_local_readiness() {
    let mut transfer = record();
    transfer.phase = TransferPhase::Activating;
    assert_eq!(
        command_for(
            &transfer,
            "target-1",
            RuntimeObservation {
                ready: false,
                ..RuntimeObservation::default()
            },
        ),
        None
    );
    assert_eq!(
        command_for(
            &transfer,
            "target-1",
            RuntimeObservation {
                ready: true,
                ..RuntimeObservation::default()
            },
        ),
        Some(TransferCommand::ConfirmTarget)
    );
}

#[test]
fn recovery_phase_blocks_automation_for_both_executors() {
    let mut transfer = record();
    transfer.phase = TransferPhase::NeedsAttention;
    transfer.attention_reason = Some("operator review".into());
    assert_eq!(
        decide(&transfer, "source-1").action,
        SupervisorAction::NeedsAttention
    );
    assert_eq!(
        decide(&transfer, "target-1").action,
        SupervisorAction::NeedsAttention
    );
}

#[test]
fn unrelated_instance_is_idle() {
    let decision = decide(&record(), "unknown");
    assert_eq!(decision.role, RuntimeRole::Unrelated);
    assert_eq!(decision.action, SupervisorAction::Idle);
}

#[test]
fn reported_commands_carry_a_transfer_to_verification() {
    let mut transfer = record();
    let idle = RuntimeObservation::default();
    let ready = RuntimeObservation {
        ready: true,
        ..idle
    };
    for _ in 0..3 {
        assert_eq!(command_for(&transfer, "target-1", ready), None);
        let command = command_for(&transfer, "source-1", idle).expect("source reports");
        transfer
            .apply(transfer.revision, transfer.epoch, command)
            .expect("accepted");
    }
    assert_eq!(transfer.phase, TransferPhase::Activating);
    assert_eq!(command_for(&transfer, "source-1", idle), None);
    assert_eq!(decide(&transfer, "source-1").action, SupervisorAction::Idle);
    let command = command_for(&transfer, "target-1", ready).expect("target reports");
    transfer
        .apply(transfer.revision, transfer.epoch, command)
        .expect("accepted");
    assert_eq!(transfer.phase, TransferPhase::Verifying);
    assert_eq!(command_for(&transfer, "target-1", ready), None);
}

#[test]
fn draining_source_that_accepts_work_waits() {
    let mut transfer = record();
    transfer.phase = TransferPhase::Draining;
    let observation = RuntimeObservation {
        active_work: 0,
        accepting_work: true,
        ready: true,
    };
    assert_eq!(command_for(&transfer, "source-1", observation), None);
}
