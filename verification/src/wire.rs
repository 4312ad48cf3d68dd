//! Messages that owners, executors and the coordinator exchange.

use vstd::prelude::*;

use crate::agent_transfer::{RecordView, TransferCommand, TransferRecord};

verus! {

/// A request of the owner of an agent.
#[derive(Debug, PartialEq, Eq)]
pub enum TransferOwnerRequest {
    /// Start, or recover, the transfer that the record describes.
    Start {
        /// The record of the requested operation.
        transfer: Box<TransferRecord>,
    },
    /// Read the current transfer of an agent.
    Status {
        /// Public key of the agent.
        agent_pubkey: String,
    },
}

/// A command that one executor instance reports, with what it observed.
#[derive(Debug, PartialEq, Eq)]
pub struct TransferExecutorCommand {
    /// Public key of the managed agent.
    pub agent_pubkey: String,
    /// Operation that the command belongs to.
    pub operation_id: String,
    /// Instance that reports the command.
    pub executor_instance_id: String,
    /// Revision that the instance observed.
    pub expected_revision: u64,
    /// Epoch that the instance observed.
    pub expected_epoch: u64,
    /// The command itself.
    pub command: TransferCommand,
}

/// The content of a [`TransferExecutorCommand`].
pub struct RequestView {
    pub agent_pubkey: Seq<char>,
    pub operation_id: Seq<char>,
    pub executor_instance_id: Seq<char>,
    pub expected_revision: u64,
    pub expected_epoch: u64,
    pub command: TransferCommand,
}

impl View for TransferExecutorCommand {
    type V = RequestView;

    open spec fn view(&self) -> RequestView {
        RequestView {
            agent_pubkey: self.agent_pubkey@,
            operation_id: self.operation_id@,
            executor_instance_id: self.executor_instance_id@,
            expected_revision: self.expected_revision,
            expected_epoch: self.expected_epoch,
            command: self.command,
        }
    }
}

/// A message that a coordinator event may carry.
#[derive(Debug, PartialEq, Eq)]
pub enum TransferCoordinatorMessage {
    /// A request of the owner.
    OwnerRequest {
        /// The request.
        request: TransferOwnerRequest,
    },
    /// A command of an executor.
    ExecutorCommand {
        /// The command.
        command: TransferExecutorCommand,
    },
}

/// A coordinator message with its identifier.
#[derive(Debug, PartialEq, Eq)]
pub struct TransferCoordinatorEnvelope {
    /// Identifier that the sender gave to the message.
    pub message_id: String,
    /// The message.
    pub message: TransferCoordinatorMessage,
}

/// A message on the transfer wire.
#[derive(Debug, PartialEq, Eq)]
pub enum TransferWireMessage {
    /// A request of the owner.
    OwnerRequest {
        /// The request.
        request: TransferOwnerRequest,
    },
    /// A command of an executor.
    ExecutorCommand {
        /// The command.
        command: TransferExecutorCommand,
    },
    /// An answer of the coordinator.
    Response {
        /// The answer.
        response: TransferWireResponse,
    },
}

/// Class of a refusal.
#[derive(Debug, Clone, Copy, PartialEq, Eq, Structural)]
pub enum TransferWireErrorCode {
    /// The sender may not make this request.
    Unauthorized,
    /// The sender observed a state that is no longer current.
    StaleState,
    /// The request is malformed.
    InvalidRequest,
    /// The request does not fit the stored state.
    Conflict,
}

/// A refusal as it goes over the wire.
#[derive(Debug, PartialEq, Eq)]
pub struct TransferWireError {
    /// Class of the refusal.
    pub code: TransferWireErrorCode,
    /// Explanation for people.
    pub detail: String,
}

/// An answer of the coordinator.
#[derive(Debug, PartialEq, Eq)]
pub enum TransferWireResponse {
    /// The transfer was started or recovered.
    Accepted {
        /// The stored record.
        transfer: Box<TransferRecord>,
    },
    /// The current transfer, if there is one.
    Status {
        /// The stored record.
        transfer: Option<Box<TransferRecord>>,
    },
    /// The command was applied.
    Applied {
        /// The record after the command.
        transfer: Box<TransferRecord>,
    },
    /// The request was refused.
    Rejected {
        /// The refusal.
        error: TransferWireError,
    },
}

/// The content of a [`TransferWireResponse`].
pub enum ResponseView {
    Accepted(RecordView),
    Status(Option<RecordView>),
    Applied(RecordView),
    Rejected { code: TransferWireErrorCode, detail: Seq<char> },
}

impl View for TransferWireResponse {
    type V = ResponseView;

    open spec fn view(&self) -> ResponseView {
        match *self {
            TransferWireResponse::Accepted { transfer } => ResponseView::Accepted(transfer@),
            TransferWireResponse::Status { transfer } => ResponseView::Status(
                match transfer {
                    Some(record) => Some(record@),
                    None => None,
                },
            ),
            TransferWireResponse::Applied { transfer } => ResponseView::Applied(transfer@),
            TransferWireResponse::Rejected { error } => ResponseView::Rejected {
                code: error.code,
                detail: error.detail@,
            },
        }
    }
}

/// A structural fault of a wire message.
#[derive(Debug, PartialEq, Eq)]
pub struct WireError {
    /// Description of the fault.
    pub message: String,
}

/// The wire message that an envelope's message becomes.
pub open spec fn wire_message_of(message: TransferCoordinatorMessage) -> TransferWireMessage {
    match message {
        TransferCoordinatorMessage::OwnerRequest { request } => TransferWireMessage::OwnerRequest {
            request,
        },
        TransferCoordinatorMessage::ExecutorCommand {
            command,
        } => TransferWireMessage::ExecutorCommand { command },
    }
}

/// The view of a decoded envelope or of the message that refuses it.
pub open spec fn envelope_view(envelope: Result<TransferCoordinatorEnvelope, String>) -> Result<
    TransferCoordinatorEnvelope,
    Seq<char>,
> {
    match envelope {
        Ok(envelope) => Ok(envelope),
        Err(text) => Err(text@),
    }
}

impl TransferCoordinatorEnvelope {
    /// The message as it goes to the coordinator.
    pub fn into_wire_message(self) -> (res: TransferWireMessage)
        ensures
            res == wire_message_of(self.message),
    {
        match self.message {
            TransferCoordinatorMessage::OwnerRequest { request } =>
                TransferWireMessage::OwnerRequest { request },
            TransferCoordinatorMessage::ExecutorCommand { command } =>
                TransferWireMessage::ExecutorCommand { command },
        }
    }
}

/// An envelope hands its request or its command on as it is, and never turns
/// into a response.
pub proof fn law_envelopes_hand_their_message_on(message: TransferCoordinatorMessage)
    ensures
        message is OwnerRequest ==> wire_message_of(message) is OwnerRequest
            && wire_message_of(message)->request == message->request,
        message is ExecutorCommand ==> wire_message_of(message) is ExecutorCommand
            && wire_message_of(message)->command == message->command,
{
}

/// The view of a command shows every field of it, and the view of a response
/// shows its kind and the record or the refusal that it carries.
pub proof fn law_wire_views_are_complete(
    command: TransferExecutorCommand,
    response: TransferWireResponse,
)
    ensures
        command@.agent_pubkey == command.agent_pubkey@,
        command@.operation_id == command.operation_id@,
        command@.executor_instance_id == command.executor_instance_id@,
        command@.expected_revision == command.expected_revision,
        command@.expected_epoch == command.expected_epoch,
        command@.command == command.command,
        response matches TransferWireResponse::Accepted { transfer } ==> response@
            == ResponseView::Accepted(transfer@),
        response matches TransferWireResponse::Status { transfer: Some(record) } ==> response@
            == ResponseView::Status(Some(record@)),
        response matches TransferWireResponse::Status { transfer: None } ==> response@
            == ResponseView::Status(None),
        response matches TransferWireResponse::Applied { transfer } ==> response@
            == ResponseView::Applied(transfer@),
        response matches TransferWireResponse::Rejected { error } ==> response@ == (
        ResponseView::Rejected { code: error.code, detail: error.detail@ }),
{
}

} // verus!
