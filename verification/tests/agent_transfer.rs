use buzz_transfer::agent_transfer::{
    Error, Executor, TransferCommand, TransferPhase, TransferRecord, MAX_REASON_BYTES,
    TRANSFER_PROTOCOL_VERSION,
};

fn record() -> TransferRecord {
    TransferRecord::new(
        "community-a",
        "agent-pubkey",
        "operation-1",
        Executor::new("mac-1", "Mac").unwrap(),
        Executor::new("server-1", "Server").unwrap(),
        7,
    )
    .unwrap()
}

fn apply(record: &mut TransferRecord, command: TransferCommand) {
    record
        .apply(record.revision, record.epoch, command)
        .unwrap();
}

#[test]
fn happy_path_fences_target_with_a_new_epoch() {
    let mut record = record();
    assert_eq!(record.epoch, 1);
    apply(&mut record, TransferCommand::BeginDrain);
    apply(&mut record, TransferCommand::ConfirmSourceQuiesced);
    apply(&mut record, TransferCommand::ActivateTarget);
    assert_eq!(record.phase, TransferPhase::Activating);
    assert_eq!(record.epoch, 2);
    assert_eq!(
        record.active_executor.as_ref().unwrap().instance_id,
        "server-1"
    );
    apply(&mut record, TransferCommand::ConfirmTarget);
    apply(&mut record, TransferCommand::Complete);
    assert_eq!(record.phase, TransferPhase::Completed);
}

#[test]
fn stale_commands_cannot_reuse_the_previous_epoch() {
    let mut record = record();
    apply(&mut record, TransferCommand::BeginDrain);
    apply(&mut record, TransferCommand::ConfirmSourceQuiesced);
    let revision = record.revision;
    apply(&mut record, TransferCommand::ActivateTarget);
    let error = record
        .apply(revision, 1, TransferCommand::ConfirmTarget)
        .unwrap_err();
    assert_eq!(
        error,
        Error::StaleRevision {
            expected: revision,
            actual: record.revision
        }
    );
}

#[test]
fn a_lost_handoff_is_not_cancelled_by_guessing() {
    let mut record = record();
    apply(&mut record, TransferCommand::BeginDrain);
    apply(&mut record, TransferCommand::ConfirmSourceQuiesced);
    apply(
        &mut record,
        TransferCommand::MarkNeedsAttention {
            reason: "target acknowledgement lost".into(),
        },
    );
    assert_eq!(record.phase, TransferPhase::NeedsAttention);
    assert_eq!(
        record.active_executor.as_ref().unwrap().instance_id,
        "mac-1"
    );
    assert!(record
        .apply(record.revision, record.epoch, TransferCommand::Complete)
        .is_err());
}

#[test]
fn source_can_resume_before_target_activation() {
    let mut record = record();
    apply(&mut record, TransferCommand::BeginDrain);
    apply(&mut record, TransferCommand::ConfirmSourceQuiesced);
    apply(&mut record, TransferCommand::ResumeSource);
    assert_eq!(record.phase, TransferPhase::Preparing);
    assert_eq!(
        record.active_executor.as_ref().unwrap().instance_id,
        "mac-1"
    );
}

#[test]
fn cancelling_during_drain_returns_source_to_preparing() {
    let mut record = record();
    apply(&mut record, TransferCommand::BeginDrain);
    apply(&mut record, TransferCommand::Cancel);
    assert_eq!(record.phase, TransferPhase::Preparing);
    assert_eq!(
        record.active_executor.as_ref().unwrap().instance_id,
        "mac-1"
    );
}

#[test]
fn same_instance_id_cannot_be_used_as_both_source_and_target() {
    let source = Executor::new("same", "Mac").unwrap();
    let target = Executor::new("same", "Server").unwrap();
    assert_eq!(
        TransferRecord::new(
            "community-a",
            "agent-pubkey",
            "operation-1",
            source,
            target,
            7,
        )
        .unwrap_err(),
        Error::SameExecutor
    );
}

#[test]
fn exhausted_counters_leave_the_record_unchanged() {
    let mut revision_exhausted = record();
    revision_exhausted.revision = u64::MAX;
    let revision_snapshot = revision_exhausted.clone();
    assert_eq!(
        revision_exhausted.apply(
            u64::MAX,
            revision_exhausted.epoch,
            TransferCommand::BeginDrain,
        ),
        Err(Error::RevisionExhausted)
    );
    assert_eq!(revision_exhausted, revision_snapshot);

    let mut epoch_exhausted = record();
    epoch_exhausted.phase = TransferPhase::SourceQuiesced;
    epoch_exhausted.epoch = u64::MAX;
    let epoch_snapshot = epoch_exhausted.clone();
    assert_eq!(
        epoch_exhausted.apply(
            epoch_exhausted.revision,
            u64::MAX,
            TransferCommand::ActivateTarget,
        ),
        Err(Error::EpochExhausted)
    );
    assert_eq!(epoch_exhausted, epoch_snapshot);
}

#[test]
fn new_record_starts_at_the_source() {
    let record = record();
    assert_eq!(record.protocol_version, TRANSFER_PROTOCOL_VERSION);
    assert_eq!(record.revision, 0);
    assert_eq!(record.epoch, 1);
    assert_eq!(record.config_revision, 7);
    assert_eq!(record.phase, TransferPhase::Preparing);
    assert_eq!(record.active_executor, Some(record.source.clone()));
    assert_eq!(record.attention_reason, None);
    assert_eq!(record.validate(), Ok(()));
}

#[test]
fn identifiers_are_bounded_in_bytes_and_hold_no_control_characters() {
    assert!(Executor::new(&"a".repeat(256), "Mac").is_ok());
    assert!(Executor::new(&"é".repeat(128), "Mac").is_ok());
    let refused = Err(Error::InvalidIdentifier {
        field: "instance_id",
    });
    assert_eq!(Executor::new("", "Mac"), refused);
    assert_eq!(Executor::new(&"a".repeat(257), "Mac"), refused);
    assert_eq!(Executor::new(&"é".repeat(129), "Mac"), refused);
    assert_eq!(Executor::new("a\nb", "Mac"), refused);
    assert_eq!(Executor::new("a\u{7f}", "Mac"), refused);
    assert_eq!(Executor::new("\u{9f}", "Mac"), refused);
    assert!(Executor::new("\u{a0}", "Mac").is_ok());
    assert_eq!(
        Executor::new("mac-1", "\u{0}"),
        Err(Error::InvalidIdentifier { field: "location" })
    );
}

#[test]
fn each_identifier_of_a_record_is_checked() {
    let fields = ["community_id", "agent_pubkey", "operation_id"];
    for field in fields {
        let mut broken = record();
        match field {
            "community_id" => broken.community_id.clear(),
            "agent_pubkey" => broken.agent_pubkey.clear(),
            _ => broken.operation_id.clear(),
        }
        assert_eq!(broken.validate(), Err(Error::InvalidIdentifier { field }));
    }
    let mut broken = record();
    broken.target.location.clear();
    assert_eq!(
        broken.validate(),
        Err(Error::InvalidIdentifier { field: "location" })
    );
}

#[test]
fn structural_faults_are_told_apart() {
    let mut broken = record();
    broken.protocol_version = 2;
    assert_eq!(broken.validate(), Err(Error::UnsupportedProtocol(2)));

    let mut broken = record();
    broken.phase = TransferPhase::NeedsAttention;
    assert_eq!(broken.validate(), Err(Error::MissingAttentionReason));

    let mut broken = record();
    broken.attention_reason = Some("why".into());
    assert_eq!(broken.validate(), Err(Error::UnexpectedAttentionReason));

    let mut broken = record();
    broken.phase = TransferPhase::Completed;
    assert_eq!(broken.validate(), Err(Error::CompletedWithoutTarget));

    let mut broken = record();
    broken.phase = TransferPhase::Verifying;
    assert_eq!(broken.validate(), Err(Error::InvalidActiveExecutor));

    let mut broken = record();
    broken.active_executor = None;
    assert_eq!(broken.validate(), Err(Error::InvalidActiveExecutor));

    let mut recovering = record();
    recovering.phase = TransferPhase::NeedsAttention;
    recovering.attention_reason = Some("why".into());
    recovering.active_executor = None;
    assert_eq!(recovering.validate(), Ok(()));
    recovering.active_executor = Some(Executor::new("mac-1", "elsewhere").unwrap());
    assert_eq!(recovering.validate(), Err(Error::InvalidActiveExecutor));
}

#[test]
fn refused_commands_leave_the_record_unchanged() {
    let mut current = record();
    let snapshot = current.clone();
    assert_eq!(
        current.apply(0, 2, TransferCommand::BeginDrain),
        Err(Error::StaleEpoch {
            expected: 2,
            actual: 1
        })
    );
    assert_eq!(
        current.apply(0, 1, TransferCommand::ActivateTarget),
        Err(Error::InvalidTransition {
            phase: TransferPhase::Preparing,
            command: "activate_target"
        })
    );
    for reason in ["".to_string(), "r".repeat(MAX_REASON_BYTES + 1), "a\tb".to_string()] {
        assert_eq!(
            current.apply(0, 1, TransferCommand::MarkNeedsAttention { reason }),
            Err(Error::InvalidReason)
        );
    }
    assert_eq!(current, snapshot);
}

#[test]
fn terminal_phases_accept_no_command() {
    let mut cancelled = record();
    apply(&mut cancelled, TransferCommand::Cancel);
    assert_eq!(cancelled.phase, TransferPhase::Cancelled);
    assert!(cancelled.phase.is_terminal());
    assert!(!TransferPhase::Verifying.is_terminal());
    assert_eq!(
        cancelled.apply(
            1,
            1,
            TransferCommand::MarkNeedsAttention {
                reason: "late".into()
            }
        ),
        Err(Error::InvalidTransition {
            phase: TransferPhase::Cancelled,
            command: "mark_needs_attention"
        })
    );
}

#[test]
fn every_transition_raises_the_revision_by_one() {
    let mut current = record();
    let commands = [
        TransferCommand::BeginDrain,
        TransferCommand::ConfirmSourceQuiesced,
        TransferCommand::ActivateTarget,
        TransferCommand::ConfirmTarget,
        TransferCommand::Complete,
    ];
    let epochs = [1, 1, 2, 2, 2];
    for (index, command) in commands.into_iter().enumerate() {
        assert_eq!(current.revision, index as u64);
        apply(&mut current, command);
        assert_eq!(current.epoch, epochs[index]);
    }
    assert_eq!(current.revision, 5);
    assert_eq!(current.active_executor, Some(current.target.clone()));
    assert_eq!(current.validate(), Ok(()));
}

#[test]
fn previous_epoch_stays_fenced_after_activation() {
    let mut current = record();
    apply(&mut current, TransferCommand::BeginDrain);
    apply(&mut current, TransferCommand::ConfirmSourceQuiesced);
    apply(&mut current, TransferCommand::ActivateTarget);
    apply(&mut current, TransferCommand::ConfirmTarget);
    assert_eq!(
        current.apply(current.revision, 1, TransferCommand::Complete),
        Err(Error::StaleEpoch {
            expected: 1,
            actual: 2
        })
    );
}

#[test]
fn error_messages_are_exact() {
    let cases = [
        (Error::InvalidIdentifier { field: "location" }, "invalid location"),
        (
            Error::UnsupportedProtocol(40),
            "unsupported transfer protocol version 40",
        ),
        (
            Error::SameExecutor,
            "source and target must be different executors",
        ),
        (
            Error::StaleRevision {
                expected: 0,
                actual: u64::MAX,
            },
            "stale transfer revision: expected 0, actual 18446744073709551615",
        ),
        (
            Error::StaleEpoch {
                expected: 10,
                actual: 9,
            },
            "stale transfer epoch: expected 10, actual 9",
        ),
        (
            Error::InvalidTransition {
                phase: TransferPhase::SourceQuiesced,
                command: "complete",
            },
            "invalid transfer transition from SourceQuiesced: complete",
        ),
        (Error::InvalidReason, "invalid recovery reason"),
        (
            Error::MissingAttentionReason,
            "needs-attention state requires a recovery reason",
        ),
        (
            Error::UnexpectedAttentionReason,
            "recovery reason is only valid in needs-attention state",
        ),
        (
            Error::CompletedWithoutTarget,
            "completed transfer does not have the target as active executor",
        ),
        (
            Error::InvalidActiveExecutor,
            "transfer phase has an invalid active executor",
        ),
        (Error::EpochExhausted, "transfer epoch exhausted"),
        (Error::RevisionExhausted, "transfer revision exhausted"),
    ];
    for (error, text) in cases {
        assert_eq!(error.message(), text);
    }
}
