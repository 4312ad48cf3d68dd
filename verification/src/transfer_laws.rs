//! Laws of the transfer state machine, stated over its outcomes and runs.

use vstd::prelude::*;

use crate::agent_transfer::{
    command_name, error_text, executor_fault, initial_record, outcome, phase_name, record_fault,
    terminal_phase, well_formed, Error, Executor, ExecutorView, RecordView, TransferCommand,
    TransferPhase, TransferRecord,
};
use crate::text::{decimal, is_bounded_text};

verus! {

/// One command together with the revision and epoch that its sender observed.
pub struct Attempt {
    pub expected_revision: u64,
    pub expected_epoch: u64,
    pub command: TransferCommand,
}

/// What the state machine answers to an attempt.
pub open spec fn answer(r: RecordView, attempt: Attempt) -> Result<RecordView, Error> {
    outcome(r, attempt.expected_revision, attempt.expected_epoch, attempt.command)
}

/// The record after an attempt, whether it was accepted or refused.
pub open spec fn after(r: RecordView, attempt: Attempt) -> RecordView {
    match answer(r, attempt) {
        Ok(next) => next,
        Err(_) => r,
    }
}

/// The record after a sequence of attempts.
pub open spec fn run(r: RecordView, attempts: Seq<Attempt>) -> RecordView
    decreases attempts.len(),
{
    if attempts.len() == 0 {
        r
    } else {
        after(run(r, attempts.drop_last()), attempts.last())
    }
}

/// The parts of a record that name the operation.
pub open spec fn same_operation(a: RecordView, b: RecordView) -> bool {
    &&& a.protocol_version == b.protocol_version
    &&& a.community_id == b.community_id
    &&& a.agent_pubkey == b.agent_pubkey
    &&& a.operation_id == b.operation_id
    &&& a.source == b.source
    &&& a.target == b.target
    &&& a.config_revision == b.config_revision
}

/// A record passes validation exactly when it meets the structural invariant.
pub proof fn law_validation_is_the_invariant(r: RecordView)
    ensures
        record_fault(r) is None <==> well_formed(r),
{
}

/// An accepted command turns a valid record into a valid record.
pub proof fn law_transitions_preserve_validity(r: RecordView, attempt: Attempt)
    requires
        answer(r, attempt) is Ok,
    ensures
        well_formed(r),
        well_formed(answer(r, attempt)->Ok_0),
{
}

/// An accepted command carries the current revision and epoch, raises the
/// revision by exactly one, and keeps everything that names the operation.
pub proof fn law_accepted_command_advances_the_revision(r: RecordView, attempt: Attempt)
    requires
        answer(r, attempt) is Ok,
    ensures
        attempt.expected_revision == r.revision,
        attempt.expected_epoch == r.epoch,
        answer(r, attempt)->Ok_0.revision == r.revision + 1,
        same_operation(answer(r, attempt)->Ok_0, r),
{
}

/// Only the activation of the target changes the epoch or the active
/// executor: it raises the epoch by one and makes the target active.
pub proof fn law_only_activation_moves_authority(r: RecordView, attempt: Attempt)
    requires
        answer(r, attempt) is Ok,
    ensures
        attempt.command is ActivateTarget ==> {
            &&& answer(r, attempt)->Ok_0.epoch == r.epoch + 1
            &&& r.active_executor == Some(r.source)
            &&& answer(r, attempt)->Ok_0.active_executor == Some(r.target)
        },
        !(attempt.command is ActivateTarget) ==> {
            &&& answer(r, attempt)->Ok_0.epoch == r.epoch
            &&& answer(r, attempt)->Ok_0.active_executor == r.active_executor
        },
{
}

/// Of two commands that observed the same revision at most one is accepted:
/// after the first, the second is refused as stale.
pub proof fn law_one_command_per_revision(r: RecordView, first: Attempt, second: Attempt)
    requires
        answer(r, first) is Ok,
        second.expected_revision == first.expected_revision,
    ensures
        answer(answer(r, first)->Ok_0, second) == Err::<RecordView, Error>(
            Error::StaleRevision {
                expected: first.expected_revision,
                actual: (first.expected_revision + 1) as u64,
            },
        ),
{
}

/// A terminal phase accepts no command at all.
pub proof fn law_terminal_phases_are_final(r: RecordView, attempt: Attempt)
    requires
        terminal_phase(r.phase),
    ensures
        answer(r, attempt) is Err,
        after(r, attempt) == r,
{
}

/// A cancellation or a resumption is accepted only while the source holds the
/// authority, and the source keeps it.
pub proof fn law_cancellation_only_before_activation(r: RecordView, attempt: Attempt)
    requires
        answer(r, attempt) is Ok,
        attempt.command is Cancel || attempt.command is ResumeSource,
    ensures
        r.active_executor == Some(r.source),
        answer(r, attempt)->Ok_0.active_executor == Some(r.source),
        answer(r, attempt)->Ok_0.phase is Preparing || answer(r, attempt)->Ok_0.phase is Cancelled,
{
}

/// Completion is accepted only after the target has been activated and has
/// confirmed itself, and a completed record names the target as active.
pub proof fn law_completion_only_at_the_target(r: RecordView, attempt: Attempt)
    requires
        answer(r, attempt) is Ok,
        answer(r, attempt)->Ok_0.phase is Completed,
    ensures
        attempt.command is Complete,
        r.phase is Verifying,
        answer(r, attempt)->Ok_0.active_executor == Some(r.target),
{
}

/// Along any run the operation stays the same, and neither the revision nor
/// the epoch ever falls.
pub proof fn law_runs_are_monotonic(r: RecordView, attempts: Seq<Attempt>)
    ensures
        same_operation(run(r, attempts), r),
        run(r, attempts).revision >= r.revision,
        run(r, attempts).epoch >= r.epoch,
        well_formed(r) ==> well_formed(run(r, attempts)),
    decreases attempts.len(),
{
    if attempts.len() > 0 {
        law_runs_are_monotonic(r, attempts.drop_last());
    }
}

/// Once the target has been activated, no command that observed the epoch
/// before the activation is ever accepted again.
pub proof fn law_previous_epoch_is_fenced(
    r: RecordView,
    activation: Attempt,
    later: Seq<Attempt>,
    stale: Attempt,
)
    requires
        activation.command is ActivateTarget,
        answer(r, activation) is Ok,
        stale.expected_epoch <= r.epoch,
    ensures
        answer(run(answer(r, activation)->Ok_0, later), stale) is Err,
{
    law_runs_are_monotonic(answer(r, activation)->Ok_0, later);
}

/// What holds of every record that a new operation can reach: the source is
/// active at the first epoch, and the target at the second.
pub open spec fn authority_follows_epoch(r: RecordView) -> bool {
    ||| r.epoch == 1 && r.active_executor == Some(r.source)
    ||| r.epoch == 2 && r.active_executor == Some(r.target)
}

proof fn lemma_authority_follows_epoch(r: RecordView, attempts: Seq<Attempt>)
    requires
        authority_follows_epoch(r),
        well_formed(r),
    ensures
        authority_follows_epoch(run(r, attempts)),
        well_formed(run(r, attempts)),
    decreases attempts.len(),
{
    if attempts.len() > 0 {
        lemma_authority_follows_epoch(r, attempts.drop_last());
    }
}

/// A new operation never reaches two records of the same epoch that name
/// different active executors: one epoch belongs to one executor.
pub proof fn law_one_executor_per_epoch(
    community_id: Seq<char>,
    agent_pubkey: Seq<char>,
    operation_id: Seq<char>,
    source: ExecutorView,
    target: ExecutorView,
    config_revision: u64,
    first: Seq<Attempt>,
    second: Seq<Attempt>,
)
    requires
        well_formed(
            initial_record(
                community_id,
                agent_pubkey,
                operation_id,
                source,
                target,
                config_revision,
            ),
        ),
    ensures
        ({
            let start = initial_record(
                community_id,
                agent_pubkey,
                operation_id,
                source,
                target,
                config_revision,
            );
            let a = run(start, first);
            let b = run(start, second);
            &&& a.epoch == b.epoch ==> a.active_executor == b.active_executor
            &&& a.epoch == 1 <==> a.active_executor == Some(source)
            &&& a.epoch == 2 <==> a.active_executor == Some(target)
            &&& a.epoch == 1 || a.epoch == 2
        }),
{
    let start = initial_record(
        community_id,
        agent_pubkey,
        operation_id,
        source,
        target,
        config_revision,
    );
    lemma_authority_follows_epoch(start, first);
    lemma_authority_follows_epoch(start, second);
    law_runs_are_monotonic(start, first);
    law_runs_are_monotonic(start, second);
}

/// A record is valid exactly if its three identifiers and the two fields of both
/// executors are plain text of at most 256 bytes, its protocol is the first, its
/// executors are different instances, a reason stands in it exactly during
/// recovery, and the active executor is the source before activation, the target
/// from activation on, and one of them or nobody during recovery.
pub proof fn law_valid_records(r: RecordView)
    ensures
        record_fault(r) is None <==> {
            &&& is_bounded_text(r.community_id, 256)
            &&& is_bounded_text(r.agent_pubkey, 256)
            &&& is_bounded_text(r.operation_id, 256)
            &&& is_bounded_text(r.source.instance_id, 256)
            &&& is_bounded_text(r.source.location, 256)
            &&& is_bounded_text(r.target.instance_id, 256)
            &&& is_bounded_text(r.target.location, 256)
            &&& r.protocol_version == 1
            &&& r.source.instance_id != r.target.instance_id
            &&& r.attention_reason is Some <==> r.phase is NeedsAttention
            &&& r.phase is Preparing || r.phase is Draining || r.phase is SourceQuiesced
                || r.phase is Cancelled ==> r.active_executor == Some(r.source)
            &&& r.phase is Activating || r.phase is Verifying || r.phase is Completed
                ==> r.active_executor == Some(r.target)
            &&& r.phase is NeedsAttention ==> r.active_executor is None || r.active_executor
                == Some(r.source) || r.active_executor == Some(r.target)
        },
{
}

/// A refusal names what is wrong with the record, and everything that is checked
/// before it is right.
pub proof fn law_faults_name_their_cause(r: RecordView)
    ensures
        ({
            let ids = is_bounded_text(r.community_id, 256) && is_bounded_text(r.agent_pubkey, 256)
                && is_bounded_text(r.operation_id, 256);
            let source = is_bounded_text(r.source.instance_id, 256) && is_bounded_text(
                r.source.location,
                256,
            );
            let target = is_bounded_text(r.target.instance_id, 256) && is_bounded_text(
                r.target.location,
                256,
            );
            let named = ids && source && target;
            let distinct = named && r.protocol_version == 1 && r.source.instance_id
                != r.target.instance_id;
            let explained = distinct && (r.attention_reason is Some <==> r.phase is NeedsAttention);
            match record_fault(r) {
                None => explained,
                Some(Error::InvalidIdentifier { field }) => {
                    ||| field == "community_id" && !is_bounded_text(r.community_id, 256)
                    ||| field == "agent_pubkey" && is_bounded_text(r.community_id, 256)
                        && !is_bounded_text(r.agent_pubkey, 256)
                    ||| field == "operation_id" && is_bounded_text(r.community_id, 256)
                        && is_bounded_text(r.agent_pubkey, 256) && !is_bounded_text(
                        r.operation_id,
                        256,
                    )
                    ||| field == "instance_id" && ids && !is_bounded_text(r.source.instance_id, 256)
                    ||| field == "location" && ids && is_bounded_text(r.source.instance_id, 256)
                        && !is_bounded_text(r.source.location, 256)
                    ||| field == "instance_id" && ids && source && !is_bounded_text(
                        r.target.instance_id,
                        256,
                    )
                    ||| field == "location" && ids && source && is_bounded_text(
                        r.target.instance_id,
                        256,
                    ) && !is_bounded_text(r.target.location, 256)
                },
                Some(Error::UnsupportedProtocol(version)) => named && version == r.protocol_version
                    && version != 1,
                Some(Error::SameExecutor) => named && r.protocol_version == 1
                    && r.source.instance_id == r.target.instance_id,
                Some(Error::MissingAttentionReason) => distinct && r.phase is NeedsAttention
                    && r.attention_reason is None,
                Some(Error::UnexpectedAttentionReason) => distinct && !(r.phase is NeedsAttention)
                    && r.attention_reason is Some,
                Some(Error::CompletedWithoutTarget) => explained && r.phase is Completed
                    && r.active_executor != Some(r.target),
                Some(Error::InvalidActiveExecutor) => explained && !(r.phase is Completed) && (
                r.active_executor is None ==> !(r.phase is NeedsAttention)) && (
                r.active_executor == Some(r.source) ==> r.phase is Activating
                    || r.phase is Verifying) && (r.active_executor == Some(r.target)
                    ==> !(r.phase is Activating || r.phase is Verifying || r.phase
                    is NeedsAttention)),
                Some(_) => false,
            }
        }),
{
}

/// An executor is made of two plain texts of at most 256 bytes, and a refusal
/// names the first field that is none.
pub proof fn law_executors_have_plain_fields(executor: ExecutorView)
    ensures
        executor_fault(executor) is None <==> is_bounded_text(executor.instance_id, 256)
            && is_bounded_text(executor.location, 256),
        !is_bounded_text(executor.instance_id, 256) ==> executor_fault(executor) == Some(
            Error::InvalidIdentifier { field: "instance_id" },
        ),
        is_bounded_text(executor.instance_id, 256) && !is_bounded_text(executor.location, 256)
            ==> executor_fault(executor) == Some(Error::InvalidIdentifier { field: "location" }),
{
}

/// A new operation is in preparation at its source, at the first epoch and
/// before any transition, under the names and between the executors that were
/// given; it is valid exactly if these are.
pub proof fn law_new_operations_begin_at_the_source(
    community_id: Seq<char>,
    agent_pubkey: Seq<char>,
    operation_id: Seq<char>,
    source: ExecutorView,
    target: ExecutorView,
    config_revision: u64,
)
    ensures
        ({
            let r = initial_record(
                community_id,
                agent_pubkey,
                operation_id,
                source,
                target,
                config_revision,
            );
            &&& r.protocol_version == 1
            &&& r.community_id == community_id
            &&& r.agent_pubkey == agent_pubkey
            &&& r.operation_id == operation_id
            &&& r.source == source
            &&& r.target == target
            &&& r.config_revision == config_revision
            &&& r.revision == 0
            &&& r.epoch == 1
            &&& r.phase is Preparing
            &&& r.active_executor == Some(source)
            &&& r.attention_reason is None
            &&& record_fault(r) is None <==> {
                &&& is_bounded_text(community_id, 256)
                &&& is_bounded_text(agent_pubkey, 256)
                &&& is_bounded_text(operation_id, 256)
                &&& executor_fault(source) is None
                &&& executor_fault(target) is None
                &&& source.instance_id != target.instance_id
            }
        }),
{
}

/// The phases that nothing leaves are the completed, the cancelled and the one
/// that needs attention.
pub proof fn law_terminal_phases(phase: TransferPhase)
    ensures
        terminal_phase(phase) <==> !(phase is Preparing || phase is Draining || phase
            is SourceQuiesced || phase is Activating || phase is Verifying),
{
}

/// While the target may have to be given up on, and at any time before, a lost
/// handoff can be recorded: in every phase that is not terminal a plain reason
/// of at most 512 bytes is accepted and kept, and nobody gains or loses the
/// authority by it.
pub proof fn law_lost_handoffs_can_be_recorded(r: RecordView, attempt: Attempt)
    requires
        well_formed(r),
        attempt.expected_revision == r.revision,
        attempt.expected_epoch == r.epoch,
        r.revision < u64::MAX,
        attempt.command is MarkNeedsAttention,
        is_bounded_text(attempt.command->reason@, 512),
        r.phase is Preparing || r.phase is Draining || r.phase is SourceQuiesced || r.phase
            is Activating || r.phase is Verifying,
    ensures
        answer(r, attempt) == Ok::<RecordView, Error>(
            RecordView {
                phase: TransferPhase::NeedsAttention,
                attention_reason: Some(attempt.command->reason@),
                revision: (r.revision + 1) as u64,
                ..r
            },
        ),
{
}

/// A command that observed the current revision and epoch of a valid record,
/// whose revision can still grow, is accepted exactly in the phases that it
/// leaves; an activation also needs an epoch that can grow.
pub proof fn law_commands_are_accepted_in_their_phases(r: RecordView, attempt: Attempt)
    requires
        well_formed(r),
        attempt.expected_revision == r.revision,
        attempt.expected_epoch == r.epoch,
        r.revision < u64::MAX,
    ensures
        r.phase is Preparing ==> (answer(r, attempt) is Ok <==> attempt.command is BeginDrain
            || attempt.command is Cancel || valid_mark(attempt.command)),
        r.phase is Draining ==> (answer(r, attempt) is Ok <==> attempt.command
            is ConfirmSourceQuiesced || attempt.command is Cancel || valid_mark(attempt.command)),
        r.phase is SourceQuiesced ==> (answer(r, attempt) is Ok <==> attempt.command
            is ActivateTarget && r.epoch < u64::MAX || attempt.command is ResumeSource
            || valid_mark(attempt.command)),
        r.phase is Activating ==> (answer(r, attempt) is Ok <==> attempt.command is ConfirmTarget
            || valid_mark(attempt.command)),
        r.phase is Verifying ==> (answer(r, attempt) is Ok <==> attempt.command is Complete
            || valid_mark(attempt.command)),
        r.phase is Completed || r.phase is Cancelled || r.phase is NeedsAttention ==> answer(
            r,
            attempt,
        ) is Err,
{
}

/// A command that records uncertainty with a plain reason of at most 512 bytes.
pub open spec fn valid_mark(command: TransferCommand) -> bool {
    command is MarkNeedsAttention && is_bounded_text(command->reason@, 512)
}

/// Where an accepted command leads, and that it changes nothing but the phase,
/// the revision, the recovery reason, and on activation the authority.
pub proof fn law_accepted_commands_lead_to_their_phase(r: RecordView, attempt: Attempt)
    requires
        answer(r, attempt) is Ok,
    ensures
        ({
            let next = answer(r, attempt)->Ok_0;
            &&& same_operation(next, r)
            &&& next.revision == r.revision + 1
            &&& attempt.command is BeginDrain ==> next.phase is Draining
            &&& attempt.command is ConfirmSourceQuiesced ==> next.phase is SourceQuiesced
            &&& attempt.command is ActivateTarget ==> next.phase is Activating
            &&& attempt.command is ConfirmTarget ==> next.phase is Verifying
            &&& attempt.command is Complete ==> next.phase is Completed
            &&& attempt.command is Cancel && r.phase is Preparing ==> next.phase is Cancelled
            &&& attempt.command is Cancel && r.phase is Draining ==> next.phase is Preparing
            &&& attempt.command is ResumeSource ==> next.phase is Preparing
            &&& attempt.command is MarkNeedsAttention ==> next.phase is NeedsAttention
                && next.attention_reason == Some(attempt.command->reason@)
            &&& !(attempt.command is MarkNeedsAttention) ==> next.attention_reason is None
            &&& !(attempt.command is ActivateTarget) ==> next.epoch == r.epoch
                && next.active_executor == r.active_executor
        }),
{
}

/// A command on a valid record is refused with the first reason there is: an
/// observed revision or epoch that is not the current one, an exhausted counter,
/// a bad recovery reason, or the phase.
pub proof fn law_refusals_name_their_reason(r: RecordView, attempt: Attempt)
    requires
        well_formed(r),
    ensures
        attempt.expected_revision != r.revision ==> answer(r, attempt) == Err::<RecordView, Error>(
            Error::StaleRevision { expected: attempt.expected_revision, actual: r.revision },
        ),
        attempt.expected_revision == r.revision && attempt.expected_epoch != r.epoch ==> answer(
            r,
            attempt,
        ) == Err::<RecordView, Error>(
            Error::StaleEpoch { expected: attempt.expected_epoch, actual: r.epoch },
        ),
        attempt.expected_revision == r.revision && attempt.expected_epoch == r.epoch ==> {
            &&& r.revision == u64::MAX ==> answer(r, attempt) == Err::<RecordView, Error>(
                Error::RevisionExhausted,
            )
            &&& r.revision < u64::MAX && r.epoch == u64::MAX && r.phase is SourceQuiesced
                && attempt.command is ActivateTarget ==> answer(r, attempt) == Err::<
                RecordView,
                Error,
            >(Error::EpochExhausted)
            &&& r.revision < u64::MAX && attempt.command is MarkNeedsAttention && !terminal_phase(
                r.phase,
            ) && !is_bounded_text(attempt.command->reason@, 512) ==> answer(r, attempt) == Err::<
                RecordView,
                Error,
            >(Error::InvalidReason)
            &&& r.revision < u64::MAX && answer(r, attempt) is Err && !(attempt.command
                is ActivateTarget && r.phase is SourceQuiesced) && !(attempt.command
                is MarkNeedsAttention && !terminal_phase(r.phase)) ==> answer(r, attempt) == Err::<
                RecordView,
                Error,
            >(
                Error::InvalidTransition {
                    phase: r.phase,
                    command: command_name(attempt.command),
                },
            )
        },
{
}

/// A record that is not valid takes no command and says why it is not valid.
pub proof fn law_invalid_records_take_no_command(r: RecordView, attempt: Attempt)
    requires
        !well_formed(r),
    ensures
        record_fault(r) is Some,
        answer(r, attempt) == Err::<RecordView, Error>(record_fault(r)->0),
{
}

/// The names of the commands.
pub proof fn law_command_names(command: TransferCommand)
    ensures
        command is BeginDrain ==> command_name(command) == "begin_drain",
        command is ConfirmSourceQuiesced ==> command_name(command) == "confirm_source_quiesced",
        command is ActivateTarget ==> command_name(command) == "activate_target",
        command is ConfirmTarget ==> command_name(command) == "confirm_target",
        command is Complete ==> command_name(command) == "complete",
        command is Cancel ==> command_name(command) == "cancel",
        command is ResumeSource ==> command_name(command) == "resume_source",
        command is MarkNeedsAttention ==> command_name(command) == "mark_needs_attention",
{
}

/// The messages about a field, a version, or an observed and an actual number
/// name them in this order.
pub proof fn law_messages_name_their_values(
    field: &'static str,
    command: &'static str,
    phase: TransferPhase,
    version: u32,
    expected: u64,
    actual: u64,
)
    ensures
        error_text(Error::InvalidIdentifier { field }) == "invalid "@ + field@,
        error_text(Error::UnsupportedProtocol(version)) == "unsupported transfer protocol version "@
            + decimal(version as nat),
        error_text(Error::StaleRevision { expected, actual })
            == "stale transfer revision: expected "@ + decimal(expected as nat) + ", actual "@
            + decimal(actual as nat),
        error_text(Error::StaleEpoch { expected, actual }) == "stale transfer epoch: expected "@
            + decimal(expected as nat) + ", actual "@ + decimal(actual as nat),
        error_text(Error::InvalidTransition { phase, command })
            == "invalid transfer transition from "@ + phase_name(phase) + ": "@ + command@,
{
}

/// The view of a record shows every field of it and of its executors.
pub proof fn law_record_views_are_complete(record: TransferRecord, executor: Executor)
    ensures
        executor@.instance_id == executor.instance_id@,
        executor@.location == executor.location@,
        record@.protocol_version == record.protocol_version,
        record@.community_id == record.community_id@,
        record@.agent_pubkey == record.agent_pubkey@,
        record@.operation_id == record.operation_id@,
        record@.revision == record.revision,
        record@.epoch == record.epoch,
        record@.source == record.source@,
        record@.target == record.target@,
        record@.config_revision == record.config_revision,
        record@.phase == record.phase,
        record@.active_executor is Some <==> record.active_executor is Some,
        record.active_executor is Some ==> record@.active_executor->0
            == record.active_executor->0@,
        record@.attention_reason is Some <==> record.attention_reason is Some,
        record.attention_reason is Some ==> record@.attention_reason->0
            == record.attention_reason->0@,
{
}

/// The names of the phases in messages.
pub proof fn law_phase_names(phase: TransferPhase)
    ensures
        phase is Preparing ==> phase_name(phase) == "Preparing"@,
        phase is Draining ==> phase_name(phase) == "Draining"@,
        phase is SourceQuiesced ==> phase_name(phase) == "SourceQuiesced"@,
        phase is Activating ==> phase_name(phase) == "Activating"@,
        phase is Verifying ==> phase_name(phase) == "Verifying"@,
        phase is Completed ==> phase_name(phase) == "Completed"@,
        phase is Cancelled ==> phase_name(phase) == "Cancelled"@,
        phase is NeedsAttention ==> phase_name(phase) == "NeedsAttention"@,
{
}

} // verus!
