//! Lifecycle of one agent identity that moves between two executors.
//!
//! The state machine performs no I/O and holds no secret. The relay persists
//! it, the runtimes act on it, and both rely on its revision and epoch so that
//! a delayed command cannot hand the active epoch to a second executor.

use vstd::prelude::*;

use crate::text::{
    bounded_text, decimal, decimal_text, is_bounded_text, join2, join3, str_eq,
};

verus! {

/// Version of the transfer state machine.
pub const TRANSFER_PROTOCOL_VERSION: u32 = 1;

/// Longest identifier, in UTF-8 bytes.
pub const MAX_IDENTIFIER_BYTES: usize = 256;

/// Longest recovery reason, in UTF-8 bytes.
pub const MAX_REASON_BYTES: usize = 512;

/// An executor location that takes part in a transfer.
#[derive(Debug, PartialEq, Eq)]
pub struct Executor {
    /// Stable identifier of the installation or deployment.
    pub instance_id: String,
    /// Label for people; it grants no authority.
    pub location: String,
}

/// The text of an [`Executor`].
pub struct ExecutorView {
    pub instance_id: Seq<char>,
    pub location: Seq<char>,
}

impl View for Executor {
    type V = ExecutorView;

    open spec fn view(&self) -> ExecutorView {
        ExecutorView { instance_id: self.instance_id@, location: self.location@ }
    }
}

impl Clone for Executor {
    fn clone(&self) -> (res: Self)
        ensures
            res == *self,
    {
        Executor { instance_id: self.instance_id.clone(), location: self.location.clone() }
    }
}

/// Lifecycle phase of one transfer operation.
#[derive(Debug, Clone, Copy, PartialEq, Eq, Structural)]
pub enum TransferPhase {
    /// The target is being checked; the source still works.
    Preparing,
    /// The source takes no new work and finishes what it has.
    Draining,
    /// The source has confirmed that nothing of it runs any more.
    SourceQuiesced,
    /// The target holds the new epoch and may start.
    Activating,
    /// The target has reported a live runtime at the expected epoch.
    Verifying,
    /// The target is the confirmed executor.
    Completed,
    /// The operation ended before authority moved.
    Cancelled,
    /// The outcome is uncertain and waits for a recovery decision.
    NeedsAttention,
}

/// Phases that no ordinary transition leaves.
pub open spec fn terminal_phase(phase: TransferPhase) -> bool {
    phase is Completed || phase is Cancelled || phase is NeedsAttention
}

impl TransferPhase {
    /// Whether no further ordinary transition is allowed from this phase.
    pub fn is_terminal(self) -> (res: bool)
        ensures
            res == terminal_phase(self),
    {
        match self {
            TransferPhase::Completed | TransferPhase::Cancelled | TransferPhase::NeedsAttention => true,
            _ => false,
        }
    }
}

/// A command that the coordinator or a runtime supervisor applies.
#[derive(Debug, PartialEq, Eq)]
pub enum TransferCommand {
    /// The source may stop taking new work.
    BeginDrain,
    /// The source has no active work and no child tools.
    ConfirmSourceQuiesced,
    /// The target is granted a new epoch.
    ActivateTarget,
    /// The target confirms the granted epoch and its configuration.
    ConfirmTarget,
    /// A verified transfer is finished.
    Complete,
    /// The operation stops while authority is still at the source.
    Cancel,
    /// The source resumes before the target was activated.
    ResumeSource,
    /// A broken handoff is recorded instead of guessed at.
    MarkNeedsAttention {
        /// Diagnostic kept for the recovery decision.
        reason: String,
    },
}

impl Clone for TransferCommand {
    fn clone(&self) -> (res: Self)
        ensures
            res == *self,
    {
        match self {
            TransferCommand::BeginDrain => TransferCommand::BeginDrain,
            TransferCommand::ConfirmSourceQuiesced => TransferCommand::ConfirmSourceQuiesced,
            TransferCommand::ActivateTarget => TransferCommand::ActivateTarget,
            TransferCommand::ConfirmTarget => TransferCommand::ConfirmTarget,
            TransferCommand::Complete => TransferCommand::Complete,
            TransferCommand::Cancel => TransferCommand::Cancel,
            TransferCommand::ResumeSource => TransferCommand::ResumeSource,
            TransferCommand::MarkNeedsAttention { reason } => TransferCommand::MarkNeedsAttention {
                reason: reason.clone(),
            },
        }
    }
}

/// Durable state of one transfer operation.
#[derive(Debug, PartialEq, Eq)]
pub struct TransferRecord {
    /// Version of the state machine that wrote the record.
    pub protocol_version: u32,
    /// Community that contains the agent identity.
    pub community_id: String,
    /// Public key of the agent; no private key occurs in a record.
    pub agent_pubkey: String,
    /// Idempotency key of the transfer request.
    pub operation_id: String,
    /// Compare-and-swap revision, one higher after every transition.
    pub revision: u64,
    /// Fencing epoch that executors check before they act.
    pub epoch: u64,
    /// Executor that the agent leaves.
    pub source: Executor,
    /// Executor that the agent moves to.
    pub target: Executor,
    /// Revision of the saved agent configuration that is moved.
    pub config_revision: u64,
    /// Current lifecycle phase.
    pub phase: TransferPhase,
    /// Executor that holds the recorded authority, if it is known.
    pub active_executor: Option<Executor>,
    /// Recovery explanation in the phase `NeedsAttention`.
    pub attention_reason: Option<String>,
}

/// The mathematical content of a [`TransferRecord`].
pub struct RecordView {
    pub protocol_version: u32,
    pub community_id: Seq<char>,
    pub agent_pubkey: Seq<char>,
    pub operation_id: Seq<char>,
    pub revision: u64,
    pub epoch: u64,
    pub source: ExecutorView,
    pub target: ExecutorView,
    pub config_revision: u64,
    pub phase: TransferPhase,
    pub active_executor: Option<ExecutorView>,
    pub attention_reason: Option<Seq<char>>,
}

/// The view of an optional executor.
pub open spec fn executor_option_view(executor: Option<Executor>) -> Option<ExecutorView> {
    match executor {
        Some(e) => Some(e@),
        None => None,
    }
}

/// The view of an optional string.
pub open spec fn string_option_view(text: Option<String>) -> Option<Seq<char>> {
    match text {
        Some(t) => Some(t@),
        None => None,
    }
}

impl View for TransferRecord {
    type V = RecordView;

    open spec fn view(&self) -> RecordView {
        RecordView {
            protocol_version: self.protocol_version,
            community_id: self.community_id@,
            agent_pubkey: self.agent_pubkey@,
            operation_id: self.operation_id@,
            revision: self.revision,
            epoch: self.epoch,
            source: self.source@,
            target: self.target@,
            config_revision: self.config_revision,
            phase: self.phase,
            active_executor: executor_option_view(self.active_executor),
            attention_reason: string_option_view(self.attention_reason),
        }
    }
}

impl Clone for TransferRecord {
    fn clone(&self) -> (res: Self)
        ensures
            res == *self,
    {
        let active_executor: Option<Executor> = match &self.active_executor {
            Some(e) => Some(e.clone()),
            None => None,
        };
        let attention_reason: Option<String> = match &self.attention_reason {
            Some(t) => Some(t.clone()),
            None => None,
        };
        TransferRecord {
            protocol_version: self.protocol_version,
            community_id: self.community_id.clone(),
            agent_pubkey: self.agent_pubkey.clone(),
            operation_id: self.operation_id.clone(),
            revision: self.revision,
            epoch: self.epoch,
            source: self.source.clone(),
            target: self.target.clone(),
            config_revision: self.config_revision,
            phase: self.phase,
            active_executor,
            attention_reason,
        }
    }
}

/// Reasons for which a record or a transition is refused.
#[derive(Debug, Clone, Copy, PartialEq, Eq)]
pub enum Error {
    /// An identifier is empty, too long, or holds a control character.
    InvalidIdentifier {
        /// Field that failed.
        field: &'static str,
    },
    /// The record was written by another protocol version.
    UnsupportedProtocol(u32),
    /// Source and target name the same executor instance.
    SameExecutor,
    /// The caller observed an older or newer revision.
    StaleRevision {
        /// Revision that the caller supplied.
        expected: u64,
        /// Revision that the record holds.
        actual: u64,
    },
    /// The caller observed an older or newer epoch.
    StaleEpoch {
        /// Epoch that the caller supplied.
        expected: u64,
        /// Epoch that the record holds.
        actual: u64,
    },
    /// The command is not legal in the current phase.
    InvalidTransition {
        /// Current phase.
        phase: TransferPhase,
        /// Name of the refused command.
        command: &'static str,
    },
    /// A recovery reason is empty, too long, or holds a control character.
    InvalidReason,
    /// The phase `NeedsAttention` comes without a reason.
    MissingAttentionReason,
    /// Another phase carries a recovery reason.
    UnexpectedAttentionReason,
    /// A completed record does not name the target as active.
    CompletedWithoutTarget,
    /// The active executor does not fit the phase.
    InvalidActiveExecutor,
    /// The epoch cannot grow any further.
    EpochExhausted,
    /// The revision cannot grow any further.
    RevisionExhausted,
}

/// The name of a phase as diagnostics print it.
pub open spec fn phase_name(phase: TransferPhase) -> Seq<char> {
    match phase {
        TransferPhase::Preparing => "Preparing"@,
        TransferPhase::Draining => "Draining"@,
        TransferPhase::SourceQuiesced => "SourceQuiesced"@,
        TransferPhase::Activating => "Activating"@,
        TransferPhase::Verifying => "Verifying"@,
        TransferPhase::Completed => "Completed"@,
        TransferPhase::Cancelled => "Cancelled"@,
        TransferPhase::NeedsAttention => "NeedsAttention"@,
    }
}

/// The message that describes an error.
pub open spec fn error_text(error: Error) -> Seq<char> {
    match error {
        Error::InvalidIdentifier { field } => "invalid "@ + field@,
        Error::UnsupportedProtocol(version) => "unsupported transfer protocol version "@ + decimal(
            version as nat,
        ),
        Error::SameExecutor => "source and target must be different executors"@,
        Error::StaleRevision { expected, actual } => "stale transfer revision: expected "@ + decimal(
            expected as nat,
        ) + ", actual "@ + decimal(actual as nat),
        Error::StaleEpoch { expected, actual } => "stale transfer epoch: expected "@ + decimal(
            expected as nat,
        ) + ", actual "@ + decimal(actual as nat),
        Error::InvalidTransition { phase, command } => "invalid transfer transition from "@
            + phase_name(phase) + ": "@ + command@,
        Error::InvalidReason => "invalid recovery reason"@,
        Error::MissingAttentionReason => "needs-attention state requires a recovery reason"@,
        Error::UnexpectedAttentionReason =>
            "recovery reason is only valid in needs-attention state"@,
        Error::CompletedWithoutTarget =>
            "completed transfer does not have the target as active executor"@,
        Error::InvalidActiveExecutor => "transfer phase has an invalid active executor"@,
        Error::EpochExhausted => "transfer epoch exhausted"@,
        Error::RevisionExhausted => "transfer revision exhausted"@,
    }
}

fn phase_text(phase: TransferPhase) -> (res: &'static str)
    ensures
        res@ == phase_name(phase),
{
    match phase {
        TransferPhase::Preparing => "Preparing",
        TransferPhase::Draining => "Draining",
        TransferPhase::SourceQuiesced => "SourceQuiesced",
        TransferPhase::Activating => "Activating",
        TransferPhase::Verifying => "Verifying",
        TransferPhase::Completed => "Completed",
        TransferPhase::Cancelled => "Cancelled",
        TransferPhase::NeedsAttention => "NeedsAttention",
    }
}

impl Error {
    /// The message that describes this error.
    pub fn message(&self) -> (res: String)
        ensures
            res@ == error_text(*self),
    {
        match self {
            Error::InvalidIdentifier { field } => join2("invalid ", field),
            Error::UnsupportedProtocol(version) => join2(
                "unsupported transfer protocol version ",
                decimal_text(*version as u64).as_str(),
            ),
            Error::SameExecutor => "source and target must be different executors".to_owned(),
            Error::StaleRevision { expected, actual } => {
                let head = join2(
                    "stale transfer revision: expected ",
                    decimal_text(*expected).as_str(),
                );
                join3(head.as_str(), ", actual ", decimal_text(*actual).as_str())
            },
            Error::StaleEpoch { expected, actual } => {
                let head = join2(
                    "stale transfer epoch: expected ",
                    decimal_text(*expected).as_str(),
                );
                join3(head.as_str(), ", actual ", decimal_text(*actual).as_str())
            },
            Error::InvalidTransition { phase, command } => {
                let head = join2("invalid transfer transition from ", phase_text(*phase));
                join3(head.as_str(), ": ", command)
            },
            Error::InvalidReason => "invalid recovery reason".to_owned(),
            Error::MissingAttentionReason =>
                "needs-attention state requires a recovery reason".to_owned(),
            Error::UnexpectedAttentionReason =>
                "recovery reason is only valid in needs-attention state".to_owned(),
            Error::CompletedWithoutTarget =>
                "completed transfer does not have the target as active executor".to_owned(),
            Error::InvalidActiveExecutor =>
                "transfer phase has an invalid active executor".to_owned(),
            Error::EpochExhausted => "transfer epoch exhausted".to_owned(),
            Error::RevisionExhausted => "transfer revision exhausted".to_owned(),
        }
    }
}

/// Text that may serve as an identifier.
pub open spec fn is_identifier(value: Seq<char>) -> bool {
    is_bounded_text(value, MAX_IDENTIFIER_BYTES as nat)
}

/// Text that may serve as a recovery reason.
pub open spec fn is_reason(value: Seq<char>) -> bool {
    is_bounded_text(value, MAX_REASON_BYTES as nat)
}

/// The refusal of `value` in the field `field`, if it is no identifier.
pub open spec fn identifier_fault(field: &'static str, value: Seq<char>) -> Option<Error> {
    if is_identifier(value) {
        None
    } else {
        Some(Error::InvalidIdentifier { field })
    }
}

/// The first refusal of an executor's two fields.
pub open spec fn executor_fault(executor: ExecutorView) -> Option<Error> {
    if !is_identifier(executor.instance_id) {
        Some(Error::InvalidIdentifier { field: "instance_id" })
    } else {
        identifier_fault("location", executor.location)
    }
}

/// The active executor fits the phase: the source before activation, the
/// target from activation on, and either of them or nobody during recovery.
pub open spec fn authority_fits_phase(r: RecordView) -> bool {
    match r.phase {
        TransferPhase::Preparing
        | TransferPhase::Draining
        | TransferPhase::SourceQuiesced
        | TransferPhase::Cancelled => r.active_executor == Some(r.source),
        TransferPhase::Activating
        | TransferPhase::Verifying
        | TransferPhase::Completed => r.active_executor == Some(r.target),
        TransferPhase::NeedsAttention => {
            ||| r.active_executor is None
            ||| r.active_executor == Some(r.source)
            ||| r.active_executor == Some(r.target)
        },
    }
}

/// The structural invariant of a record.
pub open spec fn well_formed(r: RecordView) -> bool {
    &&& is_identifier(r.community_id)
    &&& is_identifier(r.agent_pubkey)
    &&& is_identifier(r.operation_id)
    &&& executor_fault(r.source) is None
    &&& executor_fault(r.target) is None
    &&& r.protocol_version == TRANSFER_PROTOCOL_VERSION
    &&& r.source.instance_id != r.target.instance_id
    &&& (r.phase is NeedsAttention <==> r.attention_reason is Some)
    &&& authority_fits_phase(r)
}

/// The first refusal of a record, in the order in which its parts are checked.
pub open spec fn record_fault(r: RecordView) -> Option<Error> {
    if !is_identifier(r.community_id) {
        Some(Error::InvalidIdentifier { field: "community_id" })
    } else if !is_identifier(r.agent_pubkey) {
        Some(Error::InvalidIdentifier { field: "agent_pubkey" })
    } else if !is_identifier(r.operation_id) {
        Some(Error::InvalidIdentifier { field: "operation_id" })
    } else if executor_fault(r.source) is Some {
        executor_fault(r.source)
    } else if executor_fault(r.target) is Some {
        executor_fault(r.target)
    } else if r.protocol_version != TRANSFER_PROTOCOL_VERSION {
        Some(Error::UnsupportedProtocol(r.protocol_version))
    } else if r.source.instance_id == r.target.instance_id {
        Some(Error::SameExecutor)
    } else if r.phase is NeedsAttention && r.attention_reason is None {
        Some(Error::MissingAttentionReason)
    } else if !(r.phase is NeedsAttention) && r.attention_reason is Some {
        Some(Error::UnexpectedAttentionReason)
    } else if r.phase is Completed && r.active_executor != Some(r.target) {
        Some(Error::CompletedWithoutTarget)
    } else if !authority_fits_phase(r) {
        Some(Error::InvalidActiveExecutor)
    } else {
        None
    }
}

/// The record of a new operation whose source is active.
pub open spec fn initial_record(
    community_id: Seq<char>,
    agent_pubkey: Seq<char>,
    operation_id: Seq<char>,
    source: ExecutorView,
    target: ExecutorView,
    config_revision: u64,
) -> RecordView {
    RecordView {
        protocol_version: TRANSFER_PROTOCOL_VERSION,
        community_id,
        agent_pubkey,
        operation_id,
        revision: 0,
        epoch: 1,
        source,
        target,
        config_revision,
        phase: TransferPhase::Preparing,
        active_executor: Some(source),
        attention_reason: None,
    }
}

/// The wire name of a command.
pub open spec fn command_name(command: TransferCommand) -> &'static str {
    match command {
        TransferCommand::BeginDrain => "begin_drain",
        TransferCommand::ConfirmSourceQuiesced => "confirm_source_quiesced",
        TransferCommand::ActivateTarget => "activate_target",
        TransferCommand::ConfirmTarget => "confirm_target",
        TransferCommand::Complete => "complete",
        TransferCommand::Cancel => "cancel",
        TransferCommand::ResumeSource => "resume_source",
        TransferCommand::MarkNeedsAttention { .. } => "mark_needs_attention",
    }
}

/// The record one revision later, in the phase `phase`.
pub open spec fn advanced(r: RecordView, phase: TransferPhase) -> RecordView {
    RecordView { phase, revision: (r.revision + 1) as u64, ..r }
}

/// What the command does to a record whose revision can still grow.
pub open spec fn transition(r: RecordView, command: TransferCommand) -> Result<RecordView, Error> {
    match (r.phase, command) {
        (TransferPhase::Preparing, TransferCommand::BeginDrain) => Ok(
            advanced(r, TransferPhase::Draining),
        ),
        (TransferPhase::Draining, TransferCommand::ConfirmSourceQuiesced) => Ok(
            advanced(r, TransferPhase::SourceQuiesced),
        ),
        (TransferPhase::SourceQuiesced, TransferCommand::ActivateTarget) => {
            if r.epoch == u64::MAX {
                Err(Error::EpochExhausted)
            } else {
                Ok(
                    RecordView {
                        epoch: (r.epoch + 1) as u64,
                        active_executor: Some(r.target),
                        ..advanced(r, TransferPhase::Activating)
                    },
                )
            }
        },
        (TransferPhase::Activating, TransferCommand::ConfirmTarget) => Ok(
            advanced(r, TransferPhase::Verifying),
        ),
        (TransferPhase::Verifying, TransferCommand::Complete) => Ok(
            advanced(r, TransferPhase::Completed),
        ),
        (TransferPhase::Preparing, TransferCommand::Cancel) => Ok(
            advanced(r, TransferPhase::Cancelled),
        ),
        (TransferPhase::Draining, TransferCommand::Cancel) => Ok(
            advanced(r, TransferPhase::Preparing),
        ),
        (TransferPhase::SourceQuiesced, TransferCommand::ResumeSource) => Ok(
            advanced(r, TransferPhase::Preparing),
        ),
        (phase, TransferCommand::MarkNeedsAttention { reason }) => {
            if terminal_phase(phase) {
                Err(Error::InvalidTransition { phase, command: command_name(command) })
            } else if !is_reason(reason@) {
                Err(Error::InvalidReason)
            } else {
                Ok(
                    RecordView {
                        attention_reason: Some(reason@),
                        ..advanced(r, TransferPhase::NeedsAttention)
                    },
                )
            }
        },
        (phase, _) => Err(Error::InvalidTransition { phase, command: command_name(command) }),
    }
}

/// The outcome of a compare-and-swap command: the next record, or the reason
/// for which the record stays as it is.
pub open spec fn outcome(
    r: RecordView,
    expected_revision: u64,
    expected_epoch: u64,
    command: TransferCommand,
) -> Result<RecordView, Error> {
    if record_fault(r) is Some {
        Err(record_fault(r)->0)
    } else if expected_revision != r.revision {
        Err(Error::StaleRevision { expected: expected_revision, actual: r.revision })
    } else if expected_epoch != r.epoch {
        Err(Error::StaleEpoch { expected: expected_epoch, actual: r.epoch })
    } else if r.revision == u64::MAX {
        Err(Error::RevisionExhausted)
    } else {
        transition(r, command)
    }
}

fn validate_identifier(field: &'static str, value: &str) -> (res: Result<(), Error>)
    ensures
        res.err() == identifier_fault(field, value@),
{
    if !bounded_text(value, MAX_IDENTIFIER_BYTES) {
        return Err(Error::InvalidIdentifier { field });
    }
    Ok(())
}

fn sanitize_reason(reason: &str) -> (res: Result<String, Error>)
    ensures
        match res {
            Ok(text) => is_reason(reason@) && text@ == reason@,
            Err(error) => !is_reason(reason@) && error == Error::InvalidReason,
        },
{
    if !bounded_text(reason, MAX_REASON_BYTES) {
        return Err(Error::InvalidReason);
    }
    Ok(reason.to_owned())
}

impl Executor {
    /// Makes an executor reference out of two valid identifiers.
    pub fn new(instance_id: &str, location: &str) -> (res: Result<Self, Error>)
        ensures
            res.err() == executor_fault(
                (ExecutorView { instance_id: instance_id@, location: location@ }),
            ),
            res matches Ok(executor) ==> executor@ == (ExecutorView {
                instance_id: instance_id@,
                location: location@,
            }),
    {
        let executor = Executor {
            instance_id: instance_id.to_owned(),
            location: location.to_owned(),
        };
        validate_identifier("instance_id", executor.instance_id.as_str())?;
        validate_identifier("location", executor.location.as_str())?;
        Ok(executor)
    }

    fn validate(&self) -> (res: Result<(), Error>)
        ensures
            res.err() == executor_fault(self@),
    {
        validate_identifier("instance_id", self.instance_id.as_str())?;
        validate_identifier("location", self.location.as_str())
    }

    /// Whether both fields of the two executors agree.
    fn same_as(&self, other: &Executor) -> (res: bool)
        ensures
            res == (self@ == other@),
    {
        str_eq(self.instance_id.as_str(), other.instance_id.as_str()) && str_eq(
            self.location.as_str(),
            other.location.as_str(),
        )
    }
}

impl TransferRecord {
    /// Starts an operation whose source is the active executor.
    pub fn new(
        community_id: &str,
        agent_pubkey: &str,
        operation_id: &str,
        source: Executor,
        target: Executor,
        config_revision: u64,
    ) -> (res: Result<Self, Error>)
        ensures
            res.err() == record_fault(
                initial_record(
                    community_id@,
                    agent_pubkey@,
                    operation_id@,
                    source@,
                    target@,
                    config_revision,
                ),
            ),
            res matches Ok(record) ==> record@ == initial_record(
                community_id@,
                agent_pubkey@,
                operation_id@,
                source@,
                target@,
                config_revision,
            ),
    {
        let record = TransferRecord {
            protocol_version: TRANSFER_PROTOCOL_VERSION,
            community_id: community_id.to_owned(),
            agent_pubkey: agent_pubkey.to_owned(),
            operation_id: operation_id.to_owned(),
            revision: 0,
            epoch: 1,
            source: source.clone(),
            target,
            config_revision,
            phase: TransferPhase::Preparing,
            active_executor: Some(source),
            attention_reason: None,
        };
        record.validate()?;
        Ok(record)
    }

    fn active_is(&self, executor: &Executor) -> (res: bool)
        ensures
            res == (self@.active_executor == Some(executor@)),
    {
        match &self.active_executor {
            Some(active) => active.same_as(executor),
            None => false,
        }
    }

    /// Checks the structural invariant without contacting anybody.
    pub fn validate(&self) -> (res: Result<(), Error>)
        ensures
            res.err() == record_fault(self@),
    {
        validate_identifier("community_id", self.community_id.as_str())?;
        validate_identifier("agent_pubkey", self.agent_pubkey.as_str())?;
        validate_identifier("operation_id", self.operation_id.as_str())?;
        self.source.validate()?;
        self.target.validate()?;
        if self.protocol_version != TRANSFER_PROTOCOL_VERSION {
            return Err(Error::UnsupportedProtocol(self.protocol_version));
        }
        if str_eq(self.source.instance_id.as_str(), self.target.instance_id.as_str()) {
            return Err(Error::SameExecutor);
        }
        if self.phase == TransferPhase::NeedsAttention && self.attention_reason.is_none() {
            return Err(Error::MissingAttentionReason);
        }
        if self.phase != TransferPhase::NeedsAttention && self.attention_reason.is_some() {
            return Err(Error::UnexpectedAttentionReason);
        }
        if self.phase == TransferPhase::Completed && !self.active_is(&self.target) {
            return Err(Error::CompletedWithoutTarget);
        }
        match self.phase {
            TransferPhase::Preparing
            | TransferPhase::Draining
            | TransferPhase::SourceQuiesced
            | TransferPhase::Cancelled => {
                if !self.active_is(&self.source) {
                    return Err(Error::InvalidActiveExecutor);
                }
            },
            TransferPhase::Activating | TransferPhase::Verifying | TransferPhase::Completed => {
                if !self.active_is(&self.target) {
                    return Err(Error::InvalidActiveExecutor);
                }
            },
            TransferPhase::NeedsAttention => {
                if self.active_executor.is_some() && !self.active_is(&self.source)
                    && !self.active_is(&self.target) {
                    return Err(Error::InvalidActiveExecutor);
                }
            },
        }
        Ok(())
    }

    /// Applies a compare-and-swap command for an observed revision and epoch.
    ///
    /// A transition raises `revision` by one; activation also raises `epoch`,
    /// which fences the commands of the previous executor. A refused command
    /// leaves the record as it was.
    pub fn apply(
        &mut self,
        expected_revision: u64,
        expected_epoch: u64,
        command: TransferCommand,
    ) -> (res: Result<(), Error>)
        ensures
            match outcome(old(self)@, expected_revision, expected_epoch, command) {
                Ok(next) => res is Ok && final(self)@ == next,
                Err(error) => res == Err::<(), Error>(error) && *final(self) == *old(self),
            },
    {
        self.validate()?;
        if expected_revision != self.revision {
            return Err(
                Error::StaleRevision { expected: expected_revision, actual: self.revision },
            );
        }
        if expected_epoch != self.epoch {
            return Err(Error::StaleEpoch { expected: expected_epoch, actual: self.epoch });
        }
        if self.revision == u64::MAX {
            return Err(Error::RevisionExhausted);
        }
        let next_phase = match (&self.phase, &command) {
            (TransferPhase::Preparing, TransferCommand::BeginDrain) => TransferPhase::Draining,
            (TransferPhase::Draining, TransferCommand::ConfirmSourceQuiesced) => {
                TransferPhase::SourceQuiesced
            },
            (TransferPhase::SourceQuiesced, TransferCommand::ActivateTarget) => {
                if self.epoch == u64::MAX {
                    return Err(Error::EpochExhausted);
                }
                self.epoch = self.epoch + 1;
                self.active_executor = Some(self.target.clone());
                TransferPhase::Activating
            },
            (TransferPhase::Activating, TransferCommand::ConfirmTarget) => TransferPhase::Verifying,
            (TransferPhase::Verifying, TransferCommand::Complete) => TransferPhase::Completed,
            (TransferPhase::Preparing, TransferCommand::Cancel) => TransferPhase::Cancelled,
            (TransferPhase::Draining, TransferCommand::Cancel) => {
                self.active_executor = Some(self.source.clone());
                TransferPhase::Preparing
            },
            (TransferPhase::SourceQuiesced, TransferCommand::ResumeSource) => {
                self.active_executor = Some(self.source.clone());
                TransferPhase::Preparing
            },
            (_, TransferCommand::MarkNeedsAttention { reason }) => {
                if self.phase.is_terminal() {
                    return Err(
                        Error::InvalidTransition { phase: self.phase, command: command.name() },
                    );
                }
                self.attention_reason = Some(sanitize_reason(reason.as_str())?);
                TransferPhase::NeedsAttention
            },
            _ => {
                return Err(
                    Error::InvalidTransition { phase: self.phase, command: command.name() },
                );
            },
        };
        self.phase = next_phase;
        self.revision = self.revision + 1;
        self.validate()
    }
}

impl TransferCommand {
    /// The wire name of this command.
    fn name(&self) -> (res: &'static str)
        ensures
            res == command_name(*self),
    {
        match self {
            TransferCommand::BeginDrain => "begin_drain",
            TransferCommand::ConfirmSourceQuiesced => "confirm_source_quiesced",
            TransferCommand::ActivateTarget => "activate_target",
            TransferCommand::ConfirmTarget => "confirm_target",
            TransferCommand::Complete => "complete",
            TransferCommand::Cancel => "cancel",
            TransferCommand::ResumeSource => "resume_source",
            TransferCommand::MarkNeedsAttention { .. } => "mark_needs_attention",
        }
    }
}

} // verus!
