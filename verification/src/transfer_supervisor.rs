//! Decisions of the runtime supervisor about one transfer snapshot.
//!
//! A snapshot and the local instance id become a bounded intent, and local
//! evidence turns that intent into the one command that the runtime may
//! report. Nothing here touches a process, a file or a relay.

use vstd::prelude::*;

use crate::agent_transfer::{
    initial_record, outcome, well_formed, ExecutorView, RecordView, TransferCommand, TransferPhase,
    TransferRecord,
};
use crate::text::str_eq;

verus! {

/// The part that this runtime plays in a transfer.
#[derive(Debug, Clone, Copy, PartialEq, Eq, Structural)]
pub enum RuntimeRole {
    /// This runtime is the source that is drained.
    Source,
    /// This runtime is the target that is activated.
    Target,
    /// The snapshot does not name this runtime.
    Unrelated,
}

/// What the lifecycle adapter is asked to do.
#[derive(Debug, Clone, Copy, PartialEq, Eq, Structural)]
pub enum SupervisorAction {
    /// Take no new work, then measure and report quiescence.
    DrainSource,
    /// Wait until the source is recorded as quiescent.
    WaitForSource,
    /// Wait until the target epoch is granted.
    WaitForActivation,
    /// Commit the transition that grants the target a new epoch.
    GrantTargetActivation,
    /// Start or restore the target for the granted epoch.
    ActivateTarget,
    /// Verify the target before it is reported.
    VerifyTarget,
    /// Nothing to do here.
    Idle,
    /// Stop automation and ask for a recovery decision.
    NeedsAttention,
}

/// The decision for one snapshot and one local instance.
#[derive(Debug, Clone, Copy, PartialEq, Eq, Structural)]
pub struct SupervisorDecision {
    /// Role of the local runtime.
    pub role: RuntimeRole,
    /// Intent for the lifecycle adapter.
    pub action: SupervisorAction,
}

/// Local facts that a runtime needs before it may report a transition.
#[derive(Debug, Clone, Copy, PartialEq, Eq, Structural)]
pub struct RuntimeObservation {
    /// Active turns and child activities that this runtime still owns.
    pub active_work: u32,
    /// Whether this runtime still takes new work.
    pub accepting_work: bool,
    /// Whether the target runtime runs and passed its readiness checks.
    pub ready: bool,
}

impl Default for RuntimeObservation {
    fn default() -> (res: Self)
        ensures
            res == (RuntimeObservation { active_work: 0, accepting_work: false, ready: false }),
    {
        RuntimeObservation { active_work: 0, accepting_work: false, ready: false }
    }
}

/// The role of the instance `local` in the record.
pub open spec fn role_of(r: RecordView, local: Seq<char>) -> RuntimeRole {
    if r.source.instance_id == local {
        RuntimeRole::Source
    } else if r.target.instance_id == local {
        RuntimeRole::Target
    } else {
        RuntimeRole::Unrelated
    }
}

/// The intent for a role in a phase.
pub open spec fn intent(role: RuntimeRole, phase: TransferPhase) -> SupervisorAction {
    match phase {
        TransferPhase::NeedsAttention => SupervisorAction::NeedsAttention,
        TransferPhase::Cancelled | TransferPhase::Completed => SupervisorAction::Idle,
        TransferPhase::Preparing | TransferPhase::Draining => match role {
            RuntimeRole::Source => SupervisorAction::DrainSource,
            RuntimeRole::Target => SupervisorAction::WaitForSource,
            RuntimeRole::Unrelated => SupervisorAction::Idle,
        },
        TransferPhase::SourceQuiesced => match role {
            RuntimeRole::Source => SupervisorAction::GrantTargetActivation,
            RuntimeRole::Target => SupervisorAction::WaitForActivation,
            RuntimeRole::Unrelated => SupervisorAction::Idle,
        },
        TransferPhase::Activating => if role is Target {
            SupervisorAction::ActivateTarget
        } else {
            SupervisorAction::Idle
        },
        TransferPhase::Verifying => if role is Target {
            SupervisorAction::VerifyTarget
        } else {
            SupervisorAction::Idle
        },
    }
}

/// The command that the instance `local` may report, given its evidence.
pub open spec fn reportable(
    r: RecordView,
    local: Seq<char>,
    observation: RuntimeObservation,
) -> Option<TransferCommand> {
    match (role_of(r, local), r.phase) {
        (RuntimeRole::Source, TransferPhase::Preparing) => Some(TransferCommand::BeginDrain),
        (RuntimeRole::Source, TransferPhase::Draining) => if !observation.accepting_work
            && observation.active_work == 0 {
            Some(TransferCommand::ConfirmSourceQuiesced)
        } else {
            None
        },
        (RuntimeRole::Source, TransferPhase::SourceQuiesced) => Some(
            TransferCommand::ActivateTarget,
        ),
        (RuntimeRole::Target, TransferPhase::Activating) => if observation.ready {
            Some(TransferCommand::ConfirmTarget)
        } else {
            None
        },
        _ => None,
    }
}

/// Computes the intent for a snapshot without changing or asserting anything.
pub fn decide(record: &TransferRecord, local_instance_id: &str) -> (res: SupervisorDecision)
    ensures
        res.role == role_of(record@, local_instance_id@),
        res.action == intent(res.role, record.phase),
{
    let role = if str_eq(record.source.instance_id.as_str(), local_instance_id) {
        RuntimeRole::Source
    } else if str_eq(record.target.instance_id.as_str(), local_instance_id) {
        RuntimeRole::Target
    } else {
        RuntimeRole::Unrelated
    };
    let action = match (role, record.phase) {
        (_, TransferPhase::NeedsAttention) => SupervisorAction::NeedsAttention,
        (_, TransferPhase::Cancelled | TransferPhase::Completed) => SupervisorAction::Idle,
        (RuntimeRole::Unrelated, _) => SupervisorAction::Idle,
        (RuntimeRole::Source, TransferPhase::Preparing) => SupervisorAction::DrainSource,
        (RuntimeRole::Source, TransferPhase::Draining) => SupervisorAction::DrainSource,
        (RuntimeRole::Source, TransferPhase::SourceQuiesced) => {
            SupervisorAction::GrantTargetActivation
        },
        (RuntimeRole::Source, TransferPhase::Activating | TransferPhase::Verifying) => {
            SupervisorAction::Idle
        },
        (RuntimeRole::Target, TransferPhase::Preparing | TransferPhase::Draining) => {
            SupervisorAction::WaitForSource
        },
        (RuntimeRole::Target, TransferPhase::SourceQuiesced) => SupervisorAction::WaitForActivation,
        (RuntimeRole::Target, TransferPhase::Activating) => SupervisorAction::ActivateTarget,
        (RuntimeRole::Target, TransferPhase::Verifying) => SupervisorAction::VerifyTarget,
    };
    SupervisorDecision { role, action }
}

/// Selects the command that this runtime may report next.
///
/// `None` means that the runtime has to wait: it neither guesses nor reports
/// readiness without the local evidence for it.
pub fn command_for(
    record: &TransferRecord,
    local_instance_id: &str,
    observation: RuntimeObservation,
) -> (res: Option<TransferCommand>)
    ensures
        res == reportable(record@, local_instance_id@, observation),
{
    let decision = decide(record, local_instance_id);
    match (decision.role, record.phase, decision.action) {
        (RuntimeRole::Source, TransferPhase::Preparing, SupervisorAction::DrainSource) => Some(
            TransferCommand::BeginDrain,
        ),
        (RuntimeRole::Source, TransferPhase::Draining, SupervisorAction::DrainSource) => {
            if !observation.accepting_work && observation.active_work == 0 {
                Some(TransferCommand::ConfirmSourceQuiesced)
            } else {
                None
            }
        },
        (
            RuntimeRole::Source,
            TransferPhase::SourceQuiesced,
            SupervisorAction::GrantTargetActivation,
        ) => Some(TransferCommand::ActivateTarget),
        (RuntimeRole::Target, TransferPhase::Activating, SupervisorAction::ActivateTarget) => {
            if observation.ready {
                Some(TransferCommand::ConfirmTarget)
            } else {
                None
            }
        },
        _ => None,
    }
}

/// Whatever a runtime may report, it reports as the executor that the record
/// names as active.
pub proof fn law_only_the_active_executor_reports(
    r: RecordView,
    local: Seq<char>,
    observation: RuntimeObservation,
)
    requires
        well_formed(r),
        reportable(r, local, observation) is Some,
    ensures
        r.active_executor is Some,
        r.active_executor->0.instance_id == local,
{
}

/// At any moment at most one instance may report a command.
pub proof fn law_one_reporter_at_a_time(
    r: RecordView,
    first: Seq<char>,
    second: Seq<char>,
    first_observation: RuntimeObservation,
    second_observation: RuntimeObservation,
)
    requires
        well_formed(r),
        reportable(r, first, first_observation) is Some,
        reportable(r, second, second_observation) is Some,
    ensures
        first == second,
{
}

/// A reported command is accepted at the revision and epoch of the snapshot it
/// was selected from, unless the counter that it raises is exhausted.
pub proof fn law_reported_commands_are_accepted(
    r: RecordView,
    local: Seq<char>,
    observation: RuntimeObservation,
)
    requires
        well_formed(r),
        reportable(r, local, observation) is Some,
        r.revision < u64::MAX,
        r.epoch < u64::MAX || !(reportable(r, local, observation)->0 is ActivateTarget),
    ensures
        outcome(r, r.revision, r.epoch, reportable(r, local, observation)->0) is Ok,
{
}

/// The record after the instance `local` has reported what it may report.
pub open spec fn after_report(
    r: RecordView,
    local: Seq<char>,
    observation: RuntimeObservation,
) -> RecordView {
    match reportable(r, local, observation) {
        Some(command) => match outcome(r, r.revision, r.epoch, command) {
            Ok(next) => next,
            Err(_) => r,
        },
        None => r,
    }
}

/// Three reports of a quiescent source and one of a ready target carry a new
/// operation to its verification at the target, under the next epoch.
pub proof fn law_reports_hand_the_agent_over(
    community_id: Seq<char>,
    agent_pubkey: Seq<char>,
    operation_id: Seq<char>,
    source: ExecutorView,
    target: ExecutorView,
    config_revision: u64,
    idle: RuntimeObservation,
    ready: RuntimeObservation,
)
    requires
        well_formed(
            initial_record(
                community_id,
                agent_pubkey,
                operation_id,
                source,
                target,
                config_revision,
            ),
        ),
        !idle.accepting_work,
        idle.active_work == 0,
        ready.ready,
    ensures
        ({
            let start = initial_record(
                community_id,
                agent_pubkey,
                operation_id,
                source,
                target,
                config_revision,
            );
            let draining = after_report(start, source.instance_id, idle);
            let quiesced = after_report(draining, source.instance_id, idle);
            let activating = after_report(quiesced, source.instance_id, idle);
            after_report(activating, target.instance_id, ready) == (RecordView {
                revision: 4,
                epoch: 2,
                phase: TransferPhase::Verifying,
                active_executor: Some(target),
                ..start
            })
        }),
{
}

/// The target is asked to run only while the record names it as active, and
/// the source is then left alone.
pub proof fn law_target_runs_only_with_authority(r: RecordView, local: Seq<char>)
    requires
        well_formed(r),
        intent(role_of(r, local), r.phase) is ActivateTarget || intent(
            role_of(r, local),
            r.phase,
        ) is VerifyTarget,
    ensures
        local == r.target.instance_id,
        r.active_executor == Some(r.target),
        intent(role_of(r, r.source.instance_id), r.phase) is Idle,
{
}

/// The source is drained only while the record names it as active, and the
/// target then waits.
pub proof fn law_source_drains_only_with_authority(r: RecordView, local: Seq<char>)
    requires
        well_formed(r),
        intent(role_of(r, local), r.phase) is DrainSource,
    ensures
        local == r.source.instance_id,
        r.active_executor == Some(r.source),
        intent(role_of(r, r.target.instance_id), r.phase) is WaitForSource,
{
}

/// While a transfer needs attention every runtime is told so, and none may
/// report anything.
pub proof fn law_recovery_blocks_automation(
    r: RecordView,
    local: Seq<char>,
    observation: RuntimeObservation,
)
    requires
        r.phase is NeedsAttention,
    ensures
        intent(role_of(r, local), r.phase) is NeedsAttention,
        reportable(r, local, observation) is None,
{
}

/// An instance that the record does not name does nothing and reports nothing.
pub proof fn law_unrelated_instances_stay_idle(
    r: RecordView,
    local: Seq<char>,
    observation: RuntimeObservation,
)
    requires
        local != r.source.instance_id,
        local != r.target.instance_id,
        !(r.phase is NeedsAttention),
    ensures
        intent(role_of(r, local), r.phase) is Idle,
        reportable(r, local, observation) is None,
{
}

/// The role of an instance is decided by its identifier alone, and in a valid
/// record no instance has two roles.
pub proof fn law_roles_follow_the_instance(r: RecordView, local: Seq<char>)
    requires
        well_formed(r),
    ensures
        role_of(r, local) is Source <==> local == r.source.instance_id,
        role_of(r, local) is Target <==> local == r.target.instance_id,
        role_of(r, local) is Unrelated <==> local != r.source.instance_id && local
            != r.target.instance_id,
{
}

/// In every phase of the way exactly one of the two executors has something to
/// do: the source drains, then grants the activation; the target starts, then is
/// verified; the other one waits for it or rests.
pub proof fn law_each_phase_has_one_driver(r: RecordView)
    requires
        well_formed(r),
    ensures
        ({
            let at_source = intent(role_of(r, r.source.instance_id), r.phase);
            let at_target = intent(role_of(r, r.target.instance_id), r.phase);
            &&& r.phase is Preparing || r.phase is Draining ==> at_source is DrainSource
                && at_target is WaitForSource
            &&& r.phase is SourceQuiesced ==> at_source is GrantTargetActivation && at_target
                is WaitForActivation
            &&& r.phase is Activating ==> at_source is Idle && at_target is ActivateTarget
            &&& r.phase is Verifying ==> at_source is Idle && at_target is VerifyTarget
            &&& r.phase is Completed || r.phase is Cancelled ==> at_source is Idle && at_target
                is Idle
            &&& r.phase is NeedsAttention ==> at_source is NeedsAttention && at_target
                is NeedsAttention
        }),
{
}

/// Nothing is reported without the evidence for it: a source is called quiescent
/// only when it takes no work and has none left, a target is confirmed only when
/// it is ready, and each report comes from the executor and in the phase that it
/// is about.
pub proof fn law_reports_rest_on_evidence(
    r: RecordView,
    local: Seq<char>,
    observation: RuntimeObservation,
)
    ensures
        match reportable(r, local, observation) {
            None => true,
            Some(command) => {
                ||| command is BeginDrain && r.phase is Preparing && local == r.source.instance_id
                ||| command is ConfirmSourceQuiesced && r.phase is Draining && local
                    == r.source.instance_id && observation.active_work == 0
                    && !observation.accepting_work
                ||| command is ActivateTarget && r.phase is SourceQuiesced && local
                    == r.source.instance_id
                ||| command is ConfirmTarget && r.phase is Activating && local
                    == r.target.instance_id && observation.ready
            },
        },
{
}

/// What is evident is reported: a runtime waits only where its evidence is
/// missing.
pub proof fn law_evidence_is_reported(
    r: RecordView,
    local: Seq<char>,
    observation: RuntimeObservation,
)
    requires
        well_formed(r),
    ensures
        r.phase is Preparing && local == r.source.instance_id ==> reportable(r, local, observation)
            == Some(TransferCommand::BeginDrain),
        r.phase is Draining && local == r.source.instance_id && observation.active_work == 0
            && !observation.accepting_work ==> reportable(r, local, observation) == Some(
            TransferCommand::ConfirmSourceQuiesced,
        ),
        r.phase is SourceQuiesced && local == r.source.instance_id ==> reportable(
            r,
            local,
            observation,
        ) == Some(TransferCommand::ActivateTarget),
        r.phase is Activating && local == r.target.instance_id && observation.ready ==> reportable(
            r,
            local,
            observation,
        ) == Some(TransferCommand::ConfirmTarget),
{
}

} // verus!
