//! The relay's coordinator of managed-agent transfers.
//!
//! The coordinator authorizes owners, checks executors against the fenced
//! record, and leaves every state change to the store. Each operation is a
//! sequence of steps: a step says which lookup or write comes next, and
//! [`resume`] turns its reply into the following step.

use vstd::pervasive::{arbitrary, cloned, unreached};
use vstd::prelude::*;

use crate::agent_transfer::{outcome, well_formed, RecordView, TransferRecord};
use crate::keys::{
    canonical_key, hex_bytes, hex_encode, is_canonical_key, key_array,
    law_canonical_text_names_its_key, names_key, same_bytes, CommunityId,
};
use crate::text::str_eq;
use crate::transfer_store::{
    create_view, decoded, lookup_view, record_view, replacement, CreateManagedAgentTransferResult,
    CreateView, DbError, DbErrorView,
};
use crate::transfer_supervisor::{reportable, RuntimeObservation};
use crate::wire::{
    RequestView, ResponseView, TransferExecutorCommand, TransferOwnerRequest, TransferWireError,
    TransferWireErrorCode, TransferWireMessage, TransferWireResponse, WireError,
};

verus! {

/// A refusal or failure of the coordinator.
#[derive(Debug, PartialEq, Eq)]
pub enum TransferCoordinatorError {
    /// A database operation failed.
    Database(DbError),
    /// The agent key is not 64 lowercase hexadecimal digits.
    InvalidAgentPubkey,
    /// The caller is not the registered owner of the agent.
    Unauthorized,
    /// The executor does not hold the current fenced authority.
    ExecutorMismatch,
    /// The signer is not the agent that the command names.
    ExecutorIdentityMismatch,
    /// A response was submitted as a request.
    UnsupportedMessage,
    /// The command is structurally wrong.
    InvalidCommand(WireError),
}

/// The content of a [`TransferCoordinatorError`].
pub enum CoordinatorErrorView {
    Database(DbErrorView),
    InvalidAgentPubkey,
    Unauthorized,
    ExecutorMismatch,
    ExecutorIdentityMismatch,
    UnsupportedMessage,
    InvalidCommand(Seq<char>),
}

impl View for TransferCoordinatorError {
    type V = CoordinatorErrorView;

    open spec fn view(&self) -> CoordinatorErrorView {
        match *self {
            TransferCoordinatorError::Database(error) => CoordinatorErrorView::Database(error@),
            TransferCoordinatorError::InvalidAgentPubkey =>
                CoordinatorErrorView::InvalidAgentPubkey,
            TransferCoordinatorError::Unauthorized => CoordinatorErrorView::Unauthorized,
            TransferCoordinatorError::ExecutorMismatch => CoordinatorErrorView::ExecutorMismatch,
            TransferCoordinatorError::ExecutorIdentityMismatch =>
                CoordinatorErrorView::ExecutorIdentityMismatch,
            TransferCoordinatorError::UnsupportedMessage =>
                CoordinatorErrorView::UnsupportedMessage,
            TransferCoordinatorError::InvalidCommand(error) => CoordinatorErrorView::InvalidCommand(
                error.message@,
            ),
        }
    }
}

/// A command as one executor instance reports it.
pub type ExecutorCommandRequest = TransferExecutorCommand;

/// What an owner asked for once the ownership is known.
#[derive(Debug, PartialEq, Eq)]
pub enum OwnerPurpose {
    /// Store the record.
    Start {
        /// The record of the requested operation.
        record: TransferRecord,
    },
    /// Read the record of the agent.
    Status {
        /// Canonical key of the agent.
        agent_pubkey: String,
    },
    /// Read the accepted transitions of the agent.
    Journal {
        /// Canonical key of the agent.
        agent_pubkey: String,
        /// Largest number of entries.
        limit: i64,
    },
}

/// The content of an [`OwnerPurpose`].
pub enum PurposeView {
    Start(RecordView),
    Status(Seq<char>),
    Journal(Seq<char>, i64),
}

impl View for OwnerPurpose {
    type V = PurposeView;

    open spec fn view(&self) -> PurposeView {
        match *self {
            OwnerPurpose::Start { record } => PurposeView::Start(record@),
            OwnerPurpose::Status { agent_pubkey } => PurposeView::Status(agent_pubkey@),
            OwnerPurpose::Journal { agent_pubkey, limit } => PurposeView::Journal(
                agent_pubkey@,
                limit,
            ),
        }
    }
}

/// What a finished operation yields; `J` is a journal entry.
#[derive(Debug, PartialEq, Eq)]
pub enum CoordinatorOutcome<J> {
    /// The transfer was started or recovered.
    Started(CreateManagedAgentTransferResult),
    /// The current record, if there is one.
    Status(Option<TransferRecord>),
    /// The accepted transitions.
    Journal(Vec<J>),
    /// The record after the command.
    Applied(TransferRecord),
}

/// The content of a [`CoordinatorOutcome`].
pub enum OutcomeView<J> {
    Started(CreateView),
    Status(Option<RecordView>),
    Journal(Seq<J>),
    Applied(RecordView),
}

impl<J> View for CoordinatorOutcome<J> {
    type V = OutcomeView<J>;

    open spec fn view(&self) -> OutcomeView<J> {
        match *self {
            CoordinatorOutcome::Started(created) => OutcomeView::Started(created@),
            CoordinatorOutcome::Status(record) => OutcomeView::Status(
                match record {
                    Some(record) => Some(record@),
                    None => None,
                },
            ),
            CoordinatorOutcome::Journal(entries) => OutcomeView::Journal(entries@),
            CoordinatorOutcome::Applied(record) => OutcomeView::Applied(record@),
        }
    }
}

/// The view of a finished operation.
pub open spec fn outcome_view<J>(
    res: Result<CoordinatorOutcome<J>, TransferCoordinatorError>,
) -> Result<OutcomeView<J>, CoordinatorErrorView> {
    match res {
        Ok(done) => Ok(done@),
        Err(error) => Err(error@),
    }
}

/// The step that an operation has reached.
#[derive(Debug, PartialEq, Eq)]
pub enum CoordinatorStep<J> {
    /// Look up whether the actor owns the agent in the community.
    AwaitOwner {
        /// Community of the lookup.
        community_id: CommunityId,
        /// Key of the agent.
        agent_key: [u8; 32],
        /// Key of the actor.
        actor: [u8; 32],
        /// What follows if the actor does.
        purpose: OwnerPurpose,
    },
    /// Create, or recover, the operation of the record.
    AwaitCreate {
        /// Community of the record.
        community_id: CommunityId,
        /// The record to store.
        record: TransferRecord,
    },
    /// Read the record of the agent for its owner.
    AwaitStatus {
        /// Community of the agent.
        community_id: CommunityId,
        /// Canonical key of the agent.
        agent_pubkey: String,
    },
    /// Read the journal of the agent for its owner.
    AwaitJournal {
        /// Community of the agent.
        community_id: CommunityId,
        /// Canonical key of the agent.
        agent_pubkey: String,
        /// Largest number of entries.
        limit: i64,
    },
    /// Read the record that a command is to be held against.
    AwaitCurrent {
        /// Community of the agent.
        community_id: CommunityId,
        /// Canonical key of the agent.
        agent_pubkey: String,
        /// The command.
        request: ExecutorCommandRequest,
    },
    /// Apply the command to the stored record.
    AwaitApply {
        /// Community of the agent.
        community_id: CommunityId,
        /// Canonical key of the agent.
        agent_pubkey: String,
        /// The command.
        request: ExecutorCommandRequest,
    },
    /// The operation has ended.
    Done(Result<CoordinatorOutcome<J>, TransferCoordinatorError>),
}

/// The content of a [`CoordinatorStep`].
pub enum StepView<J> {
    AwaitOwner {
        community_id: CommunityId,
        agent_key: Seq<u8>,
        actor: Seq<u8>,
        purpose: PurposeView,
    },
    AwaitCreate { community_id: CommunityId, record: RecordView },
    AwaitStatus { community_id: CommunityId, agent_pubkey: Seq<char> },
    AwaitJournal { community_id: CommunityId, agent_pubkey: Seq<char>, limit: i64 },
    AwaitCurrent { community_id: CommunityId, agent_pubkey: Seq<char>, request: RequestView },
    AwaitApply { community_id: CommunityId, agent_pubkey: Seq<char>, request: RequestView },
    Done(Result<OutcomeView<J>, CoordinatorErrorView>),
}

impl<J> View for CoordinatorStep<J> {
    type V = StepView<J>;

    open spec fn view(&self) -> StepView<J> {
        match *self {
            CoordinatorStep::AwaitOwner {
                community_id,
                agent_key,
                actor,
                purpose,
            } => StepView::AwaitOwner {
                community_id,
                agent_key: agent_key@,
                actor: actor@,
                purpose: purpose@,
            },
            CoordinatorStep::AwaitCreate { community_id, record } => StepView::AwaitCreate {
                community_id,
                record: record@,
            },
            CoordinatorStep::AwaitStatus { community_id, agent_pubkey } => StepView::AwaitStatus {
                community_id,
                agent_pubkey: agent_pubkey@,
            },
            CoordinatorStep::AwaitJournal {
                community_id,
                agent_pubkey,
                limit,
            } => StepView::AwaitJournal { community_id, agent_pubkey: agent_pubkey@, limit },
            CoordinatorStep::AwaitCurrent {
                community_id,
                agent_pubkey,
                request,
            } => StepView::AwaitCurrent {
                community_id,
                agent_pubkey: agent_pubkey@,
                request: request@,
            },
            CoordinatorStep::AwaitApply {
                community_id,
                agent_pubkey,
                request,
            } => StepView::AwaitApply {
                community_id,
                agent_pubkey: agent_pubkey@,
                request: request@,
            },
            CoordinatorStep::Done(res) => StepView::Done(outcome_view(res)),
        }
    }
}

/// The reply to a step.
#[derive(Debug, PartialEq, Eq)]
pub enum CoordinatorReply<J> {
    /// Whether the actor is the registered owner.
    Owner(Result<bool, DbError>),
    /// What the creation returned.
    Created(Result<CreateManagedAgentTransferResult, DbError>),
    /// The record that was read.
    Record(Result<Option<TransferRecord>, DbError>),
    /// The journal that was read.
    Journal(Result<Vec<J>, DbError>),
    /// The record after the command.
    Applied(Result<TransferRecord, DbError>),
}

/// The content of a [`CoordinatorReply`].
pub enum ReplyView<J> {
    Owner(Result<bool, DbErrorView>),
    Created(Result<CreateView, DbErrorView>),
    Record(Result<Option<RecordView>, DbErrorView>),
    Journal(Result<Seq<J>, DbErrorView>),
    Applied(Result<RecordView, DbErrorView>),
}

/// The view of an ownership lookup.
pub open spec fn owner_view(res: Result<bool, DbError>) -> Result<bool, DbErrorView> {
    match res {
        Ok(registered) => Ok(registered),
        Err(error) => Err(error@),
    }
}

impl<J> View for CoordinatorReply<J> {
    type V = ReplyView<J>;

    open spec fn view(&self) -> ReplyView<J> {
        match *self {
            CoordinatorReply::Owner(res) => ReplyView::Owner(owner_view(res)),
            CoordinatorReply::Created(res) => ReplyView::Created(create_view(res)),
            CoordinatorReply::Record(res) => ReplyView::Record(lookup_view(res)),
            CoordinatorReply::Journal(res) => ReplyView::Journal(
                match res {
                    Ok(entries) => Ok(entries@),
                    Err(error) => Err(error@),
                },
            ),
            CoordinatorReply::Applied(res) => ReplyView::Applied(record_view(res)),
        }
    }
}

/// A reply of the kind that the step asked for.
pub open spec fn answers<J>(step: StepView<J>, reply: ReplyView<J>) -> bool {
    match step {
        StepView::AwaitOwner { .. } => reply is Owner,
        StepView::AwaitCreate { .. } => reply is Created,
        StepView::AwaitStatus { .. } => reply is Record,
        StepView::AwaitJournal { .. } => reply is Journal,
        StepView::AwaitCurrent { .. } => reply is Record,
        StepView::AwaitApply { .. } => reply is Applied,
        StepView::Done(_) => false,
    }
}

/// The command belongs to the operation, revision and epoch of the record, and
/// comes from the executor that the record names as active.
pub open spec fn holds_fence(current: RecordView, request: RequestView) -> bool {
    &&& current.operation_id == request.operation_id
    &&& current.revision == request.expected_revision
    &&& current.epoch == request.expected_epoch
    &&& current.active_executor is Some
    &&& current.active_executor->0.instance_id == request.executor_instance_id
}

/// The first step of an operation that needs the owner of the agent.
pub open spec fn owner_step<J>(
    community_id: CommunityId,
    actor: Seq<u8>,
    agent: Seq<char>,
    purpose: PurposeView,
) -> StepView<J> {
    if !is_canonical_key(agent) {
        StepView::Done(Err(CoordinatorErrorView::InvalidAgentPubkey))
    } else if actor.len() != 32 {
        StepView::Done(Err(CoordinatorErrorView::Unauthorized))
    } else {
        StepView::AwaitOwner { community_id, agent_key: hex_bytes(agent), actor, purpose }
    }
}

/// The first step of a command, given how its structure was judged.
pub open spec fn command_step<J>(
    community_id: CommunityId,
    request: RequestView,
    structure: Result<(), Seq<char>>,
) -> StepView<J> {
    if structure is Err {
        StepView::Done(Err(CoordinatorErrorView::InvalidCommand(structure->Err_0)))
    } else if !is_canonical_key(request.agent_pubkey) {
        StepView::Done(Err(CoordinatorErrorView::InvalidAgentPubkey))
    } else {
        StepView::AwaitCurrent { community_id, agent_pubkey: request.agent_pubkey, request }
    }
}

/// The refusal of a command whose signer is not the agent that it names.
pub open spec fn identity_fault(actor: Seq<u8>, request: RequestView) -> Option<
    CoordinatorErrorView,
> {
    if !is_canonical_key(request.agent_pubkey) {
        Some(CoordinatorErrorView::InvalidAgentPubkey)
    } else if !names_key(request.agent_pubkey, actor) {
        Some(CoordinatorErrorView::ExecutorIdentityMismatch)
    } else {
        None
    }
}

/// The first step of an authenticated wire message.
pub open spec fn wire_step<J>(
    community_id: CommunityId,
    actor: Seq<u8>,
    message: TransferWireMessage,
    structure: Result<(), Seq<char>>,
) -> StepView<J> {
    match message {
        TransferWireMessage::OwnerRequest { request } => match request {
            TransferOwnerRequest::Start { transfer } => owner_step(
                community_id,
                actor,
                transfer.agent_pubkey@,
                PurposeView::Start(transfer@),
            ),
            TransferOwnerRequest::Status { agent_pubkey } => owner_step(
                community_id,
                actor,
                agent_pubkey@,
                PurposeView::Status(agent_pubkey@),
            ),
        },
        TransferWireMessage::ExecutorCommand { command } => if identity_fault(
            actor,
            command@,
        ) is Some {
            StepView::Done(Err(identity_fault(actor, command@)->0))
        } else {
            command_step(community_id, command@, structure)
        },
        TransferWireMessage::Response { .. } => StepView::Done(
            Err(CoordinatorErrorView::UnsupportedMessage),
        ),
    }
}

/// The step after a reply of the kind that was asked for.
pub open spec fn resumed<J>(step: StepView<J>, reply: ReplyView<J>) -> StepView<J> {
    match (step, reply) {
        (StepView::AwaitOwner { community_id, purpose, .. }, ReplyView::Owner(registered)) =>
            match registered {
                Err(error) => StepView::Done(Err(CoordinatorErrorView::Database(error))),
                Ok(false) => StepView::Done(Err(CoordinatorErrorView::Unauthorized)),
                Ok(true) => match purpose {
                    PurposeView::Start(record) => StepView::AwaitCreate { community_id, record },
                    PurposeView::Status(agent_pubkey) => StepView::AwaitStatus {
                        community_id,
                        agent_pubkey,
                    },
                    PurposeView::Journal(agent_pubkey, limit) => StepView::AwaitJournal {
                        community_id,
                        agent_pubkey,
                        limit,
                    },
                },
            },
        (StepView::AwaitCreate { .. }, ReplyView::Created(created)) => StepView::Done(
            match created {
                Ok(created) => Ok(OutcomeView::Started(created)),
                Err(error) => Err(CoordinatorErrorView::Database(error)),
            },
        ),
        (StepView::AwaitStatus { .. }, ReplyView::Record(record)) => StepView::Done(
            match record {
                Ok(record) => Ok(OutcomeView::Status(record)),
                Err(error) => Err(CoordinatorErrorView::Database(error)),
            },
        ),
        (StepView::AwaitJournal { .. }, ReplyView::Journal(entries)) =>
            StepView::Done(
                match entries {
                    Ok(entries) => Ok(OutcomeView::Journal(entries)),
                    Err(error) => Err(CoordinatorErrorView::Database(error)),
                },
            ),
        (
            StepView::AwaitCurrent { community_id, agent_pubkey, request },
            ReplyView::Record(current),
        ) => match current {
                Err(error) => StepView::Done(Err(CoordinatorErrorView::Database(error))),
                Ok(None) => StepView::Done(
                    Err(
                        CoordinatorErrorView::Database(
                            DbErrorView::NotFound("managed agent transfer"@),
                        ),
                    ),
                ),
                Ok(Some(current)) => if holds_fence(current, request) {
                    StepView::AwaitApply { community_id, agent_pubkey, request }
                } else {
                    StepView::Done(Err(CoordinatorErrorView::ExecutorMismatch))
                },
            },
        (StepView::AwaitApply { .. }, ReplyView::Applied(record)) =>
            StepView::Done(
                match record {
                    Ok(record) => Ok(OutcomeView::Applied(record)),
                    Err(error) => Err(CoordinatorErrorView::Database(error)),
                },
            ),
        _ => step,
    }
}

/// Reads the key of an agent from its canonical notation.
pub fn canonical_agent_pubkey(value: &str) -> (res: Result<[u8; 32], TransferCoordinatorError>)
    ensures
        match res {
            Ok(key) => names_key(value@, key@),
            Err(error) => !is_canonical_key(value@)
                && error == TransferCoordinatorError::InvalidAgentPubkey,
        },
{
    match canonical_key(value) {
        Some(key) => Ok(key),
        None => Err(TransferCoordinatorError::InvalidAgentPubkey),
    }
}

/// Checks that the signer is the agent that the command names.
pub fn require_executor_identity(actor_pubkey: &[u8], command: &ExecutorCommandRequest) -> (res:
    Result<(), TransferCoordinatorError>)
    ensures
        match identity_fault(actor_pubkey@, command@) {
            Some(fault) => res matches Err(error) && error@ == fault,
            None => res is Ok,
        },
{
    let agent_pubkey = canonical_agent_pubkey(command.agent_pubkey.as_str())?;
    proof {
        law_canonical_text_names_its_key(command.agent_pubkey@);
    }
    if !same_bytes(actor_pubkey, agent_pubkey.as_slice()) {
        return Err(TransferCoordinatorError::ExecutorIdentityMismatch);
    }
    Ok(())
}

/// The view of a judgement on a command's structure.
pub open spec fn structure_view(structure: Result<(), WireError>) -> Result<(), Seq<char>> {
    match structure {
        Ok(_) => Ok(()),
        Err(error) => Err(error.message@),
    }
}

/// Coordinator of transfers over a handle `D` of the authoritative database.
#[derive(Debug)]
pub struct TransferCoordinator<D> {
    db: D,
}

impl<D: Clone> Clone for TransferCoordinator<D> {
    fn clone(&self) -> (res: Self)
        ensures
            cloned(self.handle(), res.handle()),
    {
        TransferCoordinator { db: self.db.clone() }
    }
}

impl<D> TransferCoordinator<D> {
    /// The database handle that the coordinator was made with.
    pub closed spec fn handle(&self) -> D {
        self.db
    }

    /// Makes a coordinator over a database handle.
    pub fn new(db: D) -> (res: Self)
        ensures
            res.handle() == db,
    {
        TransferCoordinator { db }
    }

    /// The database handle, for the caller that performs the steps.
    pub fn db(&self) -> (res: &D)
        ensures
            *res == self.handle(),
    {
        &self.db
    }

    fn require_owner<J>(
        &self,
        community_id: CommunityId,
        agent_key: [u8; 32],
        actor_pubkey: &[u8],
        purpose: OwnerPurpose,
    ) -> (res: CoordinatorStep<J>)
        ensures
            res@ == if actor_pubkey@.len() != 32 {
                StepView::<J>::Done(Err(CoordinatorErrorView::Unauthorized))
            } else {
                StepView::AwaitOwner {
                    community_id,
                    agent_key: agent_key@,
                    actor: actor_pubkey@,
                    purpose: purpose@,
                }
            },
    {
        match key_array(actor_pubkey) {
            Some(actor) => CoordinatorStep::AwaitOwner { community_id, agent_key, actor, purpose },
            None => CoordinatorStep::Done(Err(TransferCoordinatorError::Unauthorized)),
        }
    }

    /// Starts, or idempotently recovers, a transfer that the owner requests.
    pub fn start_for_owner<J>(
        &self,
        community_id: CommunityId,
        actor_pubkey: &[u8],
        record: TransferRecord,
    ) -> (res: CoordinatorStep<J>)
        ensures
            res@ == owner_step::<J>(
                community_id,
                actor_pubkey@,
                record.agent_pubkey@,
                PurposeView::Start(record@),
            ),
    {
        let agent_key = match canonical_agent_pubkey(record.agent_pubkey.as_str()) {
            Ok(key) => key,
            Err(error) => {
                return CoordinatorStep::Done(Err(error));
            },
        };
        proof {
            law_canonical_text_names_its_key(record.agent_pubkey@);
        }
        self.require_owner(community_id, agent_key, actor_pubkey, OwnerPurpose::Start { record })
    }

    /// Reads the current record of an agent for its owner.
    pub fn status_for_owner<J>(
        &self,
        community_id: CommunityId,
        actor_pubkey: &[u8],
        agent_pubkey: &str,
    ) -> (res: CoordinatorStep<J>)
        ensures
            res@ == owner_step::<J>(
                community_id,
                actor_pubkey@,
                agent_pubkey@,
                PurposeView::Status(agent_pubkey@),
            ),
    {
        let agent_key = match canonical_agent_pubkey(agent_pubkey) {
            Ok(key) => key,
            Err(error) => {
                return CoordinatorStep::Done(Err(error));
            },
        };
        proof {
            law_canonical_text_names_its_key(agent_pubkey@);
        }
        self.require_owner(
            community_id,
            agent_key,
            actor_pubkey,
            OwnerPurpose::Status { agent_pubkey: hex_encode(&agent_key) },
        )
    }

    /// Reads the accepted transitions of an agent for its owner.
    pub fn journal_for_owner<J>(
        &self,
        community_id: CommunityId,
        actor_pubkey: &[u8],
        agent_pubkey: &str,
        limit: i64,
    ) -> (res: CoordinatorStep<J>)
        ensures
            res@ == owner_step::<J>(
                community_id,
                actor_pubkey@,
                agent_pubkey@,
                PurposeView::Journal(agent_pubkey@, limit),
            ),
    {
        let agent_key = match canonical_agent_pubkey(agent_pubkey) {
            Ok(key) => key,
            Err(error) => {
                return CoordinatorStep::Done(Err(error));
            },
        };
        proof {
            law_canonical_text_names_its_key(agent_pubkey@);
        }
        self.require_owner(
            community_id,
            agent_key,
            actor_pubkey,
            OwnerPurpose::Journal { agent_pubkey: hex_encode(&agent_key), limit },
        )
    }

    /// Applies a command that the executor in authority reports.
    ///
    /// `structure` is the judgement of the wire layer on the command. The
    /// record is read first, so that a delayed runtime cannot use a valid
    /// revision for the wrong machine; the store's own compare-and-swap comes
    /// after that.
    pub fn apply_from_executor<J>(
        &self,
        community_id: CommunityId,
        request: ExecutorCommandRequest,
        structure: Result<(), WireError>,
    ) -> (res: CoordinatorStep<J>)
        ensures
            res@ == command_step::<J>(community_id, request@, structure_view(structure)),
    {
        if let Err(error) = structure {
            return CoordinatorStep::Done(Err(TransferCoordinatorError::InvalidCommand(error)));
        }
        let agent_key = match canonical_agent_pubkey(request.agent_pubkey.as_str()) {
            Ok(key) => key,
            Err(error) => {
                return CoordinatorStep::Done(Err(error));
            },
        };
        CoordinatorStep::AwaitCurrent { community_id, agent_pubkey: hex_encode(&agent_key), request }
    }

    /// Takes one authenticated wire message in.
    ///
    /// `actor_pubkey` is the authenticated signer. Owner requests wait for the
    /// ownership lookup; a command has to be signed by the agent that it names.
    pub fn dispatch_wire<J>(
        &self,
        community_id: CommunityId,
        actor_pubkey: &[u8],
        message: TransferWireMessage,
        structure: Result<(), WireError>,
    ) -> (res: CoordinatorStep<J>)
        ensures
            res@ == wire_step::<J>(
                community_id,
                actor_pubkey@,
                message,
                structure_view(structure),
            ),
    {
        match message {
            TransferWireMessage::OwnerRequest { request } => match request {
                TransferOwnerRequest::Start { transfer } => self.start_for_owner(
                    community_id,
                    actor_pubkey,
                    *transfer,
                ),
                TransferOwnerRequest::Status { agent_pubkey } => self.status_for_owner(
                    community_id,
                    actor_pubkey,
                    agent_pubkey.as_str(),
                ),
            },
            TransferWireMessage::ExecutorCommand { command } => {
                if let Err(error) = require_executor_identity(actor_pubkey, &command) {
                    return CoordinatorStep::Done(Err(error));
                }
                self.apply_from_executor(community_id, command, structure)
            },
            TransferWireMessage::Response { .. } => CoordinatorStep::Done(
                Err(TransferCoordinatorError::UnsupportedMessage),
            ),
        }
    }
}

fn fence_held(current: &TransferRecord, request: &ExecutorCommandRequest) -> (res: bool)
    ensures
        res == holds_fence(current@, request@),
{
    let active = match &current.active_executor {
        Some(executor) => str_eq(
            executor.instance_id.as_str(),
            request.executor_instance_id.as_str(),
        ),
        None => false,
    };
    str_eq(current.operation_id.as_str(), request.operation_id.as_str()) && current.revision
        == request.expected_revision && current.epoch == request.expected_epoch && active
}

/// Continues an operation with the reply to its step.
pub fn resume<J>(step: CoordinatorStep<J>, reply: CoordinatorReply<J>) -> (res: CoordinatorStep<J>)
    requires
        answers(step@, reply@),
    ensures
        res@ == resumed(step@, reply@),
{
    match (step, reply) {
        (
            CoordinatorStep::AwaitOwner { community_id, purpose, .. },
            CoordinatorReply::Owner(registered),
        ) => match registered {
            Err(error) => CoordinatorStep::Done(Err(TransferCoordinatorError::Database(error))),
            Ok(false) => CoordinatorStep::Done(Err(TransferCoordinatorError::Unauthorized)),
            Ok(true) => match purpose {
                OwnerPurpose::Start { record } => CoordinatorStep::AwaitCreate {
                    community_id,
                    record,
                },
                OwnerPurpose::Status { agent_pubkey } => CoordinatorStep::AwaitStatus {
                    community_id,
                    agent_pubkey,
                },
                OwnerPurpose::Journal { agent_pubkey, limit } => CoordinatorStep::AwaitJournal {
                    community_id,
                    agent_pubkey,
                    limit,
                },
            },
        },
        (CoordinatorStep::AwaitCreate { .. }, CoordinatorReply::Created(created)) =>
            match created {
                Ok(created) => CoordinatorStep::Done(Ok(CoordinatorOutcome::Started(created))),
                Err(error) => CoordinatorStep::Done(Err(TransferCoordinatorError::Database(error))),
            },
        (CoordinatorStep::AwaitStatus { .. }, CoordinatorReply::Record(record)) =>
            match record {
                Ok(record) => CoordinatorStep::Done(Ok(CoordinatorOutcome::Status(record))),
                Err(error) => CoordinatorStep::Done(Err(TransferCoordinatorError::Database(error))),
            },
        (CoordinatorStep::AwaitJournal { .. }, CoordinatorReply::Journal(entries)) =>
            match entries {
                Ok(entries) => CoordinatorStep::Done(Ok(CoordinatorOutcome::Journal(entries))),
                Err(error) => CoordinatorStep::Done(Err(TransferCoordinatorError::Database(error))),
            },
        (
            CoordinatorStep::AwaitCurrent { community_id, agent_pubkey, request },
            CoordinatorReply::Record(current),
        ) => match current {
            Err(error) => CoordinatorStep::Done(Err(TransferCoordinatorError::Database(error))),
            Ok(None) => CoordinatorStep::Done(
                Err(
                    TransferCoordinatorError::Database(
                        DbError::NotFound("managed agent transfer".to_owned()),
                    ),
                ),
            ),
            Ok(Some(current)) => {
                if !fence_held(&current, &request) {
                    return CoordinatorStep::Done(Err(TransferCoordinatorError::ExecutorMismatch));
                }
                CoordinatorStep::AwaitApply { community_id, agent_pubkey, request }
            },
        },
        (CoordinatorStep::AwaitApply { .. }, CoordinatorReply::Applied(record)) => match record {
            Ok(record) => CoordinatorStep::Done(Ok(CoordinatorOutcome::Applied(record))),
            Err(error) => CoordinatorStep::Done(Err(TransferCoordinatorError::Database(error))),
        },
        (step, _) => step,
    }
}

/// The wire answer to a finished wire operation.
pub open spec fn response_of<J>(done: OutcomeView<J>) -> ResponseView {
    match done {
        OutcomeView::Started(CreateView::Created(record)) => ResponseView::Accepted(record),
        OutcomeView::Started(CreateView::AlreadyExists(record)) => ResponseView::Accepted(record),
        OutcomeView::Status(record) => ResponseView::Status(record),
        OutcomeView::Journal(_) => arbitrary(),
        OutcomeView::Applied(record) => ResponseView::Applied(record),
    }
}

/// Turns the outcome of a wire operation into its answer. The journal is not
/// read over the wire.
pub fn wire_response<J>(done: CoordinatorOutcome<J>) -> (res: TransferWireResponse)
    requires
        !(done is Journal),
    ensures
        res@ == response_of(done@),
{
    match done {
        CoordinatorOutcome::Started(created) => {
            let transfer = match created {
                CreateManagedAgentTransferResult::Created(record) => record,
                CreateManagedAgentTransferResult::AlreadyExists(record) => record,
            };
            TransferWireResponse::Accepted { transfer: Box::new(transfer) }
        },
        CoordinatorOutcome::Status(record) => TransferWireResponse::Status {
            transfer: match record {
                Some(record) => Some(Box::new(record)),
                None => None,
            },
        },
        CoordinatorOutcome::Journal(_) => unreached(),
        CoordinatorOutcome::Applied(record) => TransferWireResponse::Applied {
            transfer: Box::new(record),
        },
    }
}

/// A refusal with its explanation.
pub fn rejected_response(code: TransferWireErrorCode, detail: &str) -> (res: TransferWireResponse)
    ensures
        res@ == (ResponseView::Rejected { code, detail: detail@ }),
{
    TransferWireResponse::Rejected {
        error: TransferWireError { code, detail: detail.to_owned() },
    }
}

/// The refusal that answers a coordinator error, unless it is internal.
pub open spec fn rejection_of(error: CoordinatorErrorView) -> Option<ResponseView> {
    match error {
        CoordinatorErrorView::Unauthorized => Some(
            ResponseView::Rejected {
                code: TransferWireErrorCode::Unauthorized,
                detail: "owner authorization is required"@,
            },
        ),
        CoordinatorErrorView::ExecutorIdentityMismatch => Some(
            ResponseView::Rejected {
                code: TransferWireErrorCode::Unauthorized,
                detail: "signed identity does not match the managed agent"@,
            },
        ),
        CoordinatorErrorView::ExecutorMismatch => Some(
            ResponseView::Rejected {
                code: TransferWireErrorCode::StaleState,
                detail: "transfer state is stale; refresh status before retrying"@,
            },
        ),
        CoordinatorErrorView::InvalidAgentPubkey => Some(
            ResponseView::Rejected {
                code: TransferWireErrorCode::InvalidRequest,
                detail: "managed agent public key is invalid"@,
            },
        ),
        CoordinatorErrorView::UnsupportedMessage => Some(
            ResponseView::Rejected {
                code: TransferWireErrorCode::InvalidRequest,
                detail: "unsupported transfer coordinator message"@,
            },
        ),
        CoordinatorErrorView::InvalidCommand(_) => Some(
            ResponseView::Rejected {
                code: TransferWireErrorCode::InvalidRequest,
                detail: "executor command is invalid"@,
            },
        ),
        CoordinatorErrorView::Database(DbErrorView::NotFound(_)) => Some(
            ResponseView::Rejected {
                code: TransferWireErrorCode::Conflict,
                detail: "transfer operation was not found"@,
            },
        ),
        CoordinatorErrorView::Database(DbErrorView::InvalidData(_)) => Some(
            ResponseView::Rejected {
                code: TransferWireErrorCode::Conflict,
                detail: "transfer request conflicts with current state"@,
            },
        ),
        CoordinatorErrorView::Database(_) => None,
    }
}

/// Turns a coordinator error into the refusal that answers it. `None` stands
/// for an internal failure, of which the sender learns nothing.
pub fn map_coordinator_error(error: TransferCoordinatorError) -> (res: Option<TransferWireResponse>)
    ensures
        match rejection_of(error@) {
            Some(rejection) => res matches Some(response) && response@ == rejection,
            None => res is None,
        },
{
    let (code, detail) = match error {
        TransferCoordinatorError::Unauthorized => (
            TransferWireErrorCode::Unauthorized,
            "owner authorization is required",
        ),
        TransferCoordinatorError::ExecutorIdentityMismatch => (
            TransferWireErrorCode::Unauthorized,
            "signed identity does not match the managed agent",
        ),
        TransferCoordinatorError::ExecutorMismatch => (
            TransferWireErrorCode::StaleState,
            "transfer state is stale; refresh status before retrying",
        ),
        TransferCoordinatorError::InvalidAgentPubkey => (
            TransferWireErrorCode::InvalidRequest,
            "managed agent public key is invalid",
        ),
        TransferCoordinatorError::UnsupportedMessage => (
            TransferWireErrorCode::InvalidRequest,
            "unsupported transfer coordinator message",
        ),
        TransferCoordinatorError::InvalidCommand(_) => (
            TransferWireErrorCode::InvalidRequest,
            "executor command is invalid",
        ),
        TransferCoordinatorError::Database(DbError::NotFound(_)) => (
            TransferWireErrorCode::Conflict,
            "transfer operation was not found",
        ),
        TransferCoordinatorError::Database(DbError::InvalidData(_)) => (
            TransferWireErrorCode::Conflict,
            "transfer request conflicts with current state",
        ),
        TransferCoordinatorError::Database(_) => {
            return None;
        },
    };
    Some(rejected_response(code, detail))
}

/// The wire never starts with a write or with an unauthorized read: a message
/// waits for the lookup whether its signer owns the agent, or for the record
/// that its command is held against, or is refused.
pub proof fn law_wire_messages_begin_with_a_check<J>(
    community_id: CommunityId,
    actor: Seq<u8>,
    message: TransferWireMessage,
    structure: Result<(), Seq<char>>,
)
    ensures
        ({
            let step = wire_step::<J>(community_id, actor, message, structure);
            ||| step is AwaitOwner && step->actor == actor && step->AwaitOwner_community_id
                == community_id
            ||| step is AwaitCurrent && step->AwaitCurrent_community_id == community_id
            ||| step is Done && step->Done_0 is Err
        }),
{
}

/// A record is stored, and a record or journal is read for an owner, only
/// after the lookup has confirmed the ownership, and only what the owner asked
/// for in the community of the lookup.
pub proof fn law_owner_requests_follow_the_lookup<J>(step: StepView<J>, reply: ReplyView<J>)
    requires
        answers(step, reply),
        ({
            let next = resumed(step, reply);
            next is AwaitCreate || next is AwaitStatus || next is AwaitJournal
        }),
    ensures
        step is AwaitOwner,
        reply == ReplyView::<J>::Owner(Ok(true)),
        ({
            let next = resumed(step, reply);
            let community_id = step->AwaitOwner_community_id;
            match step->purpose {
                PurposeView::Start(record) => next == (StepView::<J>::AwaitCreate {
                    community_id,
                    record,
                }),
                PurposeView::Status(agent_pubkey) => next == (StepView::<J>::AwaitStatus {
                    community_id,
                    agent_pubkey,
                }),
                PurposeView::Journal(agent_pubkey, limit) => next == (StepView::<J>::AwaitJournal {
                    community_id,
                    agent_pubkey,
                    limit,
                }),
            }
        }),
{
}

/// A command is applied only after the stored record has confirmed its
/// operation, revision, epoch and executor.
pub proof fn law_commands_pass_the_fence<J>(step: StepView<J>, reply: ReplyView<J>)
    requires
        answers(step, reply),
        resumed(step, reply) is AwaitApply,
    ensures
        step is AwaitCurrent,
        reply is Record,
        reply->Record_0 is Ok,
        reply->Record_0->Ok_0 is Some,
        holds_fence(reply->Record_0->Ok_0->0, step->AwaitCurrent_request),
        resumed(step, reply)->AwaitApply_request == step->AwaitCurrent_request,
        resumed(step, reply)->AwaitApply_agent_pubkey == step->AwaitCurrent_agent_pubkey,
        resumed(step, reply)->AwaitApply_community_id == step->AwaitCurrent_community_id,
{
}

/// The step that an operation reaches with a sequence of replies.
pub open spec fn resumed_with<J>(step: StepView<J>, replies: Seq<ReplyView<J>>) -> StepView<J>
    decreases replies.len(),
{
    if replies.len() == 0 {
        step
    } else {
        resumed(resumed_with(step, replies.drop_last()), replies.last())
    }
}

spec fn off_journal<J>(step: StepView<J>) -> bool {
    match step {
        StepView::AwaitOwner { purpose, .. } => !(purpose is Journal),
        StepView::AwaitJournal { .. } => false,
        StepView::Done(Ok(done)) => !(done is Journal),
        _ => true,
    }
}

proof fn lemma_stays_off_journal<J>(step: StepView<J>, replies: Seq<ReplyView<J>>)
    requires
        off_journal(step),
    ensures
        off_journal(resumed_with(step, replies)),
    decreases replies.len(),
{
    if replies.len() > 0 {
        lemma_stays_off_journal(step, replies.drop_last());
    }
}

/// Whatever the replies are, a wire message never leads to the journal: it is
/// neither read nor what the operation ends with.
pub proof fn law_wire_operations_never_read_the_journal<J>(
    community_id: CommunityId,
    actor: Seq<u8>,
    message: TransferWireMessage,
    structure: Result<(), Seq<char>>,
    replies: Seq<ReplyView<J>>,
)
    ensures
        ({
            let step = resumed_with(
                wire_step::<J>(community_id, actor, message, structure),
                replies,
            );
            &&& !(step is AwaitJournal)
            &&& !(step is Done && step->Done_0 is Ok && step->Done_0->Ok_0 is Journal)
        }),
{
    lemma_stays_off_journal(wire_step::<J>(community_id, actor, message, structure), replies);
}

/// A command on the wire is looked at only if the agent that it names has
/// signed it.
pub proof fn law_commands_are_signed_by_their_agent<J>(
    community_id: CommunityId,
    actor: Seq<u8>,
    request: TransferExecutorCommand,
    structure: Result<(), Seq<char>>,
)
    requires
        wire_step::<J>(
            community_id,
            actor,
            (TransferWireMessage::ExecutorCommand { command: request }),
            structure,
        ) is AwaitCurrent,
    ensures
        names_key(request.agent_pubkey@, actor),
        structure is Ok,
{
}

/// An answer of the coordinator is never taken for a request.
pub proof fn law_responses_are_not_requests<J>(
    community_id: CommunityId,
    actor: Seq<u8>,
    response: TransferWireResponse,
    structure: Result<(), Seq<char>>,
)
    ensures
        wire_step::<J>(
            community_id,
            actor,
            (TransferWireMessage::Response { response }),
            structure,
        ) == StepView::<J>::Done(Err(CoordinatorErrorView::UnsupportedMessage)),
{
}

/// What the supervisor of an executor may report passes the fence, as long as
/// the stored record is the snapshot that it was reported from.
pub proof fn law_reported_commands_hold_the_fence(
    snapshot: RecordView,
    local: Seq<char>,
    observation: RuntimeObservation,
    request: RequestView,
)
    requires
        well_formed(snapshot),
        reportable(snapshot, local, observation) == Some(request.command),
        request.operation_id == snapshot.operation_id,
        request.expected_revision == snapshot.revision,
        request.expected_epoch == snapshot.epoch,
        request.executor_instance_id == local,
    ensures
        holds_fence(snapshot, request),
{
}

/// A command that passes the fence is written exactly when the state machine
/// accepts it, as long as the row is still the one that was read.
pub proof fn law_fenced_commands_meet_the_state_machine(
    community: Seq<char>,
    agent: Seq<char>,
    current: RecordView,
    request: RequestView,
)
    requires
        decoded(community, agent, None, Ok(current)) == Ok::<RecordView, DbErrorView>(current),
        holds_fence(current, request),
    ensures
        replacement(
            community,
            agent,
            request.operation_id,
            request.expected_revision,
            request.expected_epoch,
            request.command,
            Ok(Some(Ok(current))),
        ) == match outcome(current, current.revision, current.epoch, request.command) {
            Ok(next) => Ok::<RecordView, DbErrorView>(next),
            Err(error) => Err(DbErrorView::Transfer(error)),
        },
{
}

/// Every error is answered by a refusal, except for the failures of the
/// database and of the state machine behind it, of which nothing is told.
pub proof fn law_only_internal_failures_stay_untold(error: CoordinatorErrorView)
    ensures
        rejection_of(error) is None <==> (error matches CoordinatorErrorView::Database(failure)
            && (failure is Transfer || failure is Other)),
        rejection_of(error) is Some ==> rejection_of(error)->0 is Rejected,
{
}

/// A start request of an owner, once the lookup has confirmed that its signer
/// owns the agent of its record, stores exactly that record, and what the store
/// created or recovered is what the operation yields and what is answered.
pub proof fn law_start_requests_store_their_record<J>(
    community_id: CommunityId,
    actor: Seq<u8>,
    transfer: Box<TransferRecord>,
    structure: Result<(), Seq<char>>,
    created: CreateView,
    stored: RecordView,
)
    requires
        is_canonical_key(transfer.agent_pubkey@),
        actor.len() == 32,
    ensures
        ({
            let message = TransferWireMessage::OwnerRequest {
                request: TransferOwnerRequest::Start { transfer },
            };
            let first = wire_step::<J>(community_id, actor, message, structure);
            let second = resumed(first, ReplyView::Owner(Ok(true)));
            &&& first is AwaitOwner
            &&& first->AwaitOwner_community_id == community_id
            &&& first->actor == actor
            &&& names_key(transfer.agent_pubkey@, first->agent_key)
            &&& second == (StepView::<J>::AwaitCreate { community_id, record: transfer@ })
            &&& resumed(second, ReplyView::Created(Ok(created))) == StepView::<J>::Done(
                Ok(OutcomeView::Started(created)),
            )
            &&& created == CreateView::Created(stored) || created == CreateView::AlreadyExists(
                stored,
            ) ==> response_of(OutcomeView::<J>::Started(created)) == ResponseView::Accepted(stored)
        }),
{
    law_canonical_text_names_its_key(transfer.agent_pubkey@);
}

/// A status request of an owner, once the lookup has confirmed that its signer
/// owns the agent, reads the record of exactly that agent, and the record that
/// is there, or that there is none, is what is answered.
pub proof fn law_status_requests_read_their_agent<J>(
    community_id: CommunityId,
    actor: Seq<u8>,
    agent_pubkey: String,
    structure: Result<(), Seq<char>>,
    stored: Option<RecordView>,
)
    requires
        is_canonical_key(agent_pubkey@),
        actor.len() == 32,
    ensures
        ({
            let message = TransferWireMessage::OwnerRequest {
                request: TransferOwnerRequest::Status { agent_pubkey },
            };
            let first = wire_step::<J>(community_id, actor, message, structure);
            let second = resumed(first, ReplyView::Owner(Ok(true)));
            &&& first is AwaitOwner
            &&& first->AwaitOwner_community_id == community_id
            &&& first->actor == actor
            &&& names_key(agent_pubkey@, first->agent_key)
            &&& second == (StepView::<J>::AwaitStatus { community_id, agent_pubkey: agent_pubkey@ })
            &&& resumed(second, ReplyView::Record(Ok(stored))) == StepView::<J>::Done(
                Ok(OutcomeView::Status(stored)),
            )
            &&& response_of(OutcomeView::<J>::Status(stored)) == ResponseView::Status(stored)
        }),
{
    law_canonical_text_names_its_key(agent_pubkey@);
}

/// An owner's operation looks the ownership of its agent up for its actor, and
/// goes on to what it was asked for; an agent that is no canonical key and an
/// actor that is no key are refused without a lookup, in this order.
pub proof fn law_owner_operations_look_their_actor_up<J>(
    community_id: CommunityId,
    actor: Seq<u8>,
    agent: Seq<char>,
    record: RecordView,
    limit: i64,
    entries: Seq<J>,
)
    ensures
        forall|purpose: PurposeView|
            {
                let step = #[trigger] owner_step::<J>(community_id, actor, agent, purpose);
                &&& !is_canonical_key(agent) ==> step == StepView::<J>::Done(
                    Err(CoordinatorErrorView::InvalidAgentPubkey),
                )
                &&& is_canonical_key(agent) && actor.len() != 32 ==> step == StepView::<J>::Done(
                    Err(CoordinatorErrorView::Unauthorized),
                )
                &&& is_canonical_key(agent) && actor.len() == 32 ==> {
                    &&& step is AwaitOwner
                    &&& step->AwaitOwner_community_id == community_id
                    &&& step->actor == actor
                    &&& step->purpose == purpose
                    &&& names_key(agent, step->agent_key)
                }
            },
        is_canonical_key(agent) && actor.len() == 32 ==> {
            let step = owner_step::<J>(
                community_id,
                actor,
                agent,
                PurposeView::Journal(agent, limit),
            );
            let next = resumed(step, ReplyView::Owner(Ok(true)));
            &&& next == (StepView::<J>::AwaitJournal { community_id, agent_pubkey: agent, limit })
            &&& resumed(next, ReplyView::Journal(Ok(entries))) == StepView::<J>::Done(
                Ok(OutcomeView::Journal(entries)),
            )
        },
{
    law_canonical_text_names_its_key(agent);
}

/// Whoever is not confirmed as the owner gets nothing: a denial ends the
/// operation, and so does a failed lookup.
pub proof fn law_only_confirmed_owners_go_on<J>(step: StepView<J>, error: DbErrorView)
    requires
        step is AwaitOwner,
    ensures
        resumed(step, ReplyView::Owner(Ok(false))) == StepView::<J>::Done(
            Err(CoordinatorErrorView::Unauthorized),
        ),
        resumed(step, ReplyView::Owner(Err(error))) == StepView::<J>::Done(
            Err(CoordinatorErrorView::Database(error)),
        ),
        !(resumed(step, ReplyView::Owner(Ok(true))) is Done),
{
}

/// A failure of the database ends the operation with that failure, at every
/// step.
pub proof fn law_database_failures_are_passed_on<J>(step: StepView<J>, error: DbErrorView)
    ensures
        step is AwaitCreate ==> resumed(step, ReplyView::Created(Err(error))) == StepView::<J>::Done(
            Err(CoordinatorErrorView::Database(error)),
        ),
        step is AwaitStatus || step is AwaitCurrent ==> resumed(step, ReplyView::Record(Err(error)))
            == StepView::<J>::Done(Err(CoordinatorErrorView::Database(error))),
        step is AwaitJournal ==> resumed(step, ReplyView::Journal(Err(error)))
            == StepView::<J>::Done(Err(CoordinatorErrorView::Database(error))),
        step is AwaitApply ==> resumed(step, ReplyView::Applied(Err(error)))
            == StepView::<J>::Done(Err(CoordinatorErrorView::Database(error))),
{
}

/// A command is held against the stored record: it goes to the store exactly if
/// it names the operation, the revision and the epoch of the record and comes
/// from the instance that the record names as active, whichever of the two
/// executors that is. The record after the command is then what the operation
/// yields.
pub proof fn law_the_executor_in_authority_is_heard<J>(
    community_id: CommunityId,
    agent_pubkey: Seq<char>,
    request: RequestView,
    current: RecordView,
    next: RecordView,
)
    ensures
        ({
            let step = StepView::<J>::AwaitCurrent { community_id, agent_pubkey, request };
            let after = resumed(step, ReplyView::Record(Ok(Some(current))));
            let apply = StepView::<J>::AwaitApply { community_id, agent_pubkey, request };
            &&& current.operation_id == request.operation_id && current.revision
                == request.expected_revision && current.epoch == request.expected_epoch
                && current.active_executor is Some && current.active_executor->0.instance_id
                == request.executor_instance_id ==> after == apply
            &&& current.operation_id != request.operation_id || current.revision
                != request.expected_revision || current.epoch != request.expected_epoch
                || current.active_executor is None || current.active_executor->0.instance_id
                != request.executor_instance_id ==> after == StepView::<J>::Done(
                Err(CoordinatorErrorView::ExecutorMismatch),
            )
            &&& resumed(step, ReplyView::Record(Ok(None))) == StepView::<J>::Done(
                Err(
                    CoordinatorErrorView::Database(
                        DbErrorView::NotFound("managed agent transfer"@),
                    ),
                ),
            )
            &&& resumed(apply, ReplyView::Applied(Ok(next))) == StepView::<J>::Done(
                Ok(OutcomeView::Applied(next)),
            )
            &&& response_of(OutcomeView::<J>::Applied(next)) == ResponseView::Applied(next)
        }),
{
}

/// What the supervisor of either executor may report on a stored record, in its
/// own name and signed by the agent, goes to the store, and the store applies it
/// unless the counter that it raises is exhausted.
pub proof fn law_reported_commands_are_applied<J>(
    community_id: CommunityId,
    actor: Seq<u8>,
    stored: RecordView,
    local: Seq<char>,
    observation: RuntimeObservation,
    command: TransferExecutorCommand,
)
    requires
        decoded(community_id.text(), command.agent_pubkey@, None, Ok(stored)) == Ok::<
            RecordView,
            DbErrorView,
        >(stored),
        reportable(stored, local, observation) == Some(command.command),
        names_key(command.agent_pubkey@, actor),
        command.operation_id@ == stored.operation_id,
        command.executor_instance_id@ == local,
        command.expected_revision == stored.revision,
        command.expected_epoch == stored.epoch,
        stored.revision < u64::MAX,
        stored.epoch < u64::MAX,
    ensures
        ({
            let message = TransferWireMessage::ExecutorCommand { command };
            let first = wire_step::<J>(community_id, actor, message, Ok(()));
            let second = resumed(first, ReplyView::Record(Ok(Some(stored))));
            &&& first == (StepView::<J>::AwaitCurrent {
                community_id,
                agent_pubkey: command.agent_pubkey@,
                request: command@,
            })
            &&& second == (StepView::<J>::AwaitApply {
                community_id,
                agent_pubkey: command.agent_pubkey@,
                request: command@,
            })
            &&& replacement(
                community_id.text(),
                command.agent_pubkey@,
                command.operation_id@,
                command.expected_revision,
                command.expected_epoch,
                command.command,
                Ok(Some(Ok(stored))),
            ) is Ok
        }),
{
    law_canonical_text_names_its_key(command.agent_pubkey@);
}

/// A command on the wire is read against the record exactly if its agent is a
/// canonical key, has signed it, and its structure was found right; otherwise it
/// is refused for the first of these that fails.
pub proof fn law_commands_are_checked_in_order<J>(
    community_id: CommunityId,
    actor: Seq<u8>,
    command: TransferExecutorCommand,
    structure: Result<(), Seq<char>>,
)
    ensures
        ({
            let step = wire_step::<J>(
                community_id,
                actor,
                (TransferWireMessage::ExecutorCommand { command }),
                structure,
            );
            let agent = command.agent_pubkey@;
            &&& !is_canonical_key(agent) ==> step == StepView::<J>::Done(
                Err(CoordinatorErrorView::InvalidAgentPubkey),
            )
            &&& is_canonical_key(agent) && actor != hex_bytes(agent) ==> step == StepView::<
                J,
            >::Done(Err(CoordinatorErrorView::ExecutorIdentityMismatch))
            &&& is_canonical_key(agent) && actor == hex_bytes(agent) && structure is Err ==> step
                == StepView::<J>::Done(
                Err(CoordinatorErrorView::InvalidCommand(structure->Err_0)),
            )
            &&& is_canonical_key(agent) && actor == hex_bytes(agent) && structure is Ok ==> step
                == (StepView::<J>::AwaitCurrent {
                community_id,
                agent_pubkey: agent,
                request: command@,
            })
        }),
{
    law_canonical_text_names_its_key(command.agent_pubkey@);
}

/// A command that is applied without a signer is checked for its structure
/// first, and then for its key.
pub proof fn law_unsigned_commands_are_checked_in_order<J>(
    community_id: CommunityId,
    request: RequestView,
    structure: Result<(), Seq<char>>,
)
    ensures
        structure is Err ==> command_step::<J>(community_id, request, structure) == StepView::<
            J,
        >::Done(Err(CoordinatorErrorView::InvalidCommand(structure->Err_0))),
        structure is Ok && !is_canonical_key(request.agent_pubkey) ==> command_step::<J>(
            community_id,
            request,
            structure,
        ) == StepView::<J>::Done(Err(CoordinatorErrorView::InvalidAgentPubkey)),
        structure is Ok && is_canonical_key(request.agent_pubkey) ==> command_step::<J>(
            community_id,
            request,
            structure,
        ) == (StepView::<J>::AwaitCurrent {
            community_id,
            agent_pubkey: request.agent_pubkey,
            request,
        }),
{
}

/// The signer of a command is accepted exactly if the command names it.
pub proof fn law_signers_are_named_by_their_command(actor: Seq<u8>, request: RequestView)
    ensures
        identity_fault(actor, request) is None <==> names_key(request.agent_pubkey, actor),
        identity_fault(actor, request) == Some(CoordinatorErrorView::InvalidAgentPubkey)
            <==> !is_canonical_key(request.agent_pubkey),
        identity_fault(actor, request) == Some(CoordinatorErrorView::ExecutorIdentityMismatch)
            <==> is_canonical_key(request.agent_pubkey) && !names_key(request.agent_pubkey, actor),
{
    law_canonical_text_names_its_key(request.agent_pubkey);
}

/// The class of a refusal follows from the kind of the error: who is not allowed,
/// who is late, what is malformed, and what does not fit the stored state. No
/// text of an error reaches the sender.
pub proof fn law_refusals_are_classed_by_their_error(error: CoordinatorErrorView)
    ensures
        ({
            let rejection = rejection_of(error);
            &&& error is Unauthorized ==> rejection == Some(
                ResponseView::Rejected {
                    code: TransferWireErrorCode::Unauthorized,
                    detail: "owner authorization is required"@,
                },
            )
            &&& error is ExecutorIdentityMismatch ==> rejection == Some(
                ResponseView::Rejected {
                    code: TransferWireErrorCode::Unauthorized,
                    detail: "signed identity does not match the managed agent"@,
                },
            )
            &&& error is ExecutorMismatch ==> rejection == Some(
                ResponseView::Rejected {
                    code: TransferWireErrorCode::StaleState,
                    detail: "transfer state is stale; refresh status before retrying"@,
                },
            )
            &&& error is InvalidAgentPubkey ==> rejection == Some(
                ResponseView::Rejected {
                    code: TransferWireErrorCode::InvalidRequest,
                    detail: "managed agent public key is invalid"@,
                },
            )
            &&& error is UnsupportedMessage ==> rejection == Some(
                ResponseView::Rejected {
                    code: TransferWireErrorCode::InvalidRequest,
                    detail: "unsupported transfer coordinator message"@,
                },
            )
            &&& error is InvalidCommand ==> rejection == Some(
                ResponseView::Rejected {
                    code: TransferWireErrorCode::InvalidRequest,
                    detail: "executor command is invalid"@,
                },
            )
            &&& error is Database && error->Database_0 is NotFound ==> rejection == Some(
                ResponseView::Rejected {
                    code: TransferWireErrorCode::Conflict,
                    detail: "transfer operation was not found"@,
                },
            )
            &&& error is Database && error->Database_0 is InvalidData ==> rejection == Some(
                ResponseView::Rejected {
                    code: TransferWireErrorCode::Conflict,
                    detail: "transfer request conflicts with current state"@,
                },
            )
        }),
{
}

/// A reply answers the step that asked for it, and no other kind of reply does.
pub proof fn law_steps_are_answered_by_their_kind<J>(step: StepView<J>, reply: ReplyView<J>)
    ensures
        answers(step, reply) <==> {
            ||| step is AwaitOwner && reply is Owner
            ||| step is AwaitCreate && reply is Created
            ||| (step is AwaitStatus || step is AwaitCurrent) && reply is Record
            ||| step is AwaitJournal && reply is Journal
            ||| step is AwaitApply && reply is Applied
        },
{
}

/// The view of an error shows its kind and what it carries.
pub proof fn law_coordinator_errors_are_shown(failure: DbError, fault: WireError)
    ensures
        TransferCoordinatorError::Database(failure)@ == CoordinatorErrorView::Database(failure@),
        TransferCoordinatorError::InvalidCommand(fault)@ == CoordinatorErrorView::InvalidCommand(
            fault.message@,
        ),
        TransferCoordinatorError::InvalidAgentPubkey@ is InvalidAgentPubkey,
        TransferCoordinatorError::Unauthorized@ is Unauthorized,
        TransferCoordinatorError::ExecutorMismatch@ is ExecutorMismatch,
        TransferCoordinatorError::ExecutorIdentityMismatch@ is ExecutorIdentityMismatch,
        TransferCoordinatorError::UnsupportedMessage@ is UnsupportedMessage,
        structure_view(Ok(())) is Ok,
        structure_view(Err(fault)) == Err::<(), Seq<char>>(fault.message@),
        owner_view(Ok(true)) == Ok::<bool, DbErrorView>(true),
        owner_view(Ok(false)) == Ok::<bool, DbErrorView>(false),
        owner_view(Err(failure)) == Err::<bool, DbErrorView>(failure@),
{
}

/// The views of steps, replies and outcomes show everything that they carry.
pub proof fn law_step_views_are_complete<J>(
    step: CoordinatorStep<J>,
    reply: CoordinatorReply<J>,
    done: CoordinatorOutcome<J>,
    purpose: OwnerPurpose,
)
    ensures
        step matches CoordinatorStep::AwaitOwner { community_id, agent_key, actor, purpose: asked }
            ==> step@ is AwaitOwner && step@->AwaitOwner_community_id == community_id
            && step@->agent_key == agent_key@ && step@->actor == actor@ && step@->purpose == asked@,
        step matches CoordinatorStep::AwaitCreate { community_id, record } ==> step@ is AwaitCreate
            && step@->AwaitCreate_community_id == community_id && step@->record == record@,
        step matches CoordinatorStep::AwaitStatus { community_id, agent_pubkey } ==> step@
            is AwaitStatus && step@->AwaitStatus_community_id == community_id
            && step@->AwaitStatus_agent_pubkey == agent_pubkey@,
        step matches CoordinatorStep::AwaitJournal { community_id, agent_pubkey, limit } ==> step@
            is AwaitJournal && step@->AwaitJournal_community_id == community_id
            && step@->AwaitJournal_agent_pubkey == agent_pubkey@ && step@->limit == limit,
        step matches CoordinatorStep::AwaitCurrent { community_id, agent_pubkey, request } ==> step@
            is AwaitCurrent && step@->AwaitCurrent_community_id == community_id
            && step@->AwaitCurrent_agent_pubkey == agent_pubkey@ && step@->AwaitCurrent_request
            == request@,
        step matches CoordinatorStep::AwaitApply { community_id, agent_pubkey, request } ==> step@
            is AwaitApply && step@->AwaitApply_community_id == community_id
            && step@->AwaitApply_agent_pubkey == agent_pubkey@ && step@->AwaitApply_request
            == request@,
        step matches CoordinatorStep::Done(Ok(outcome)) ==> step@ == StepView::<J>::Done(
            Ok(outcome@),
        ),
        step matches CoordinatorStep::Done(Err(error)) ==> step@ == StepView::<J>::Done(Err(error@)),
        reply matches CoordinatorReply::Owner(Ok(registered)) ==> reply@ == ReplyView::<J>::Owner(
            Ok(registered),
        ),
        reply matches CoordinatorReply::Created(Ok(created)) ==> reply@ == ReplyView::<J>::Created(
            Ok(created@),
        ),
        reply matches CoordinatorReply::Record(Ok(Some(record))) ==> reply@ == ReplyView::<
            J,
        >::Record(Ok(Some(record@))),
        reply matches CoordinatorReply::Record(Ok(None)) ==> reply@ == ReplyView::<J>::Record(
            Ok(None),
        ),
        reply matches CoordinatorReply::Journal(Ok(entries)) ==> reply@ == ReplyView::<J>::Journal(
            Ok(entries@),
        ),
        reply matches CoordinatorReply::Applied(Ok(record)) ==> reply@ == ReplyView::<J>::Applied(
            Ok(record@),
        ),
        reply matches CoordinatorReply::Owner(Err(error)) ==> reply@ == ReplyView::<J>::Owner(
            Err(error@),
        ),
        reply matches CoordinatorReply::Created(Err(error)) ==> reply@ == ReplyView::<J>::Created(
            Err(error@),
        ),
        reply matches CoordinatorReply::Record(Err(error)) ==> reply@ == ReplyView::<J>::Record(
            Err(error@),
        ),
        reply matches CoordinatorReply::Journal(Err(error)) ==> reply@ == ReplyView::<J>::Journal(
            Err(error@),
        ),
        reply matches CoordinatorReply::Applied(Err(error)) ==> reply@ == ReplyView::<J>::Applied(
            Err(error@),
        ),
        done matches CoordinatorOutcome::Started(created) ==> done@ == OutcomeView::<J>::Started(
            created@,
        ),
        done matches CoordinatorOutcome::Status(Some(record)) ==> done@ == OutcomeView::<J>::Status(
            Some(record@),
        ),
        done matches CoordinatorOutcome::Status(None) ==> done@ == OutcomeView::<J>::Status(None),
        done matches CoordinatorOutcome::Journal(entries) ==> done@ == OutcomeView::<J>::Journal(
            entries@,
        ),
        done matches CoordinatorOutcome::Applied(record) ==> done@ == OutcomeView::<J>::Applied(
            record@,
        ),
        purpose matches OwnerPurpose::Start { record } ==> purpose@ == PurposeView::Start(record@),
        purpose matches OwnerPurpose::Status { agent_pubkey } ==> purpose@ == PurposeView::Status(
            agent_pubkey@,
        ),
        purpose matches OwnerPurpose::Journal { agent_pubkey, limit } ==> purpose@
            == PurposeView::Journal(agent_pubkey@, limit),
{
}

} // verus!
