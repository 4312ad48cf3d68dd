//! Decisions about the durable transfer row of an agent.
//!
//! The database holds one row per community and agent. What a statement
//! returned goes in, and the next statement or the final answer comes out; a
//! record is checked against its scope whenever it is read or written.

use vstd::prelude::*;

use crate::agent_transfer::{
    outcome, record_fault, Error, RecordView, TransferCommand, TransferRecord,
};
use crate::keys::CommunityId;
use crate::text::str_eq;

verus! {

/// A failure of the transfer store.
#[derive(Debug, PartialEq, Eq)]
pub enum DbError {
    /// The row does not exist.
    NotFound(String),
    /// The data does not fit the request.
    InvalidData(String),
    /// The state machine refused the record or the command.
    Transfer(Error),
    /// The database, or the encoding of a row, failed.
    Other(String),
}

/// The content of a [`DbError`].
pub enum DbErrorView {
    NotFound(Seq<char>),
    InvalidData(Seq<char>),
    Transfer(Error),
    Other(Seq<char>),
}

impl View for DbError {
    type V = DbErrorView;

    open spec fn view(&self) -> DbErrorView {
        match *self {
            DbError::NotFound(text) => DbErrorView::NotFound(text@),
            DbError::InvalidData(text) => DbErrorView::InvalidData(text@),
            DbError::Transfer(error) => DbErrorView::Transfer(error),
            DbError::Other(text) => DbErrorView::Other(text@),
        }
    }
}

/// The view of a result that holds nothing or a store failure.
pub open spec fn done_view(res: Result<(), DbError>) -> Result<(), DbErrorView> {
    match res {
        Ok(_) => Ok(()),
        Err(error) => Err(error@),
    }
}

/// The view of a result that holds a record or a store failure.
pub open spec fn record_view(res: Result<TransferRecord, DbError>) -> Result<
    RecordView,
    DbErrorView,
> {
    match res {
        Ok(record) => Ok(record@),
        Err(error) => Err(error@),
    }
}

/// The view of what a statement returned: a failure, no row, or a row whose
/// record could or could not be read.
pub open spec fn reply_view(
    res: Result<Option<Result<TransferRecord, DbError>>, DbError>,
) -> Result<Option<Result<RecordView, DbErrorView>>, DbErrorView> {
    match res {
        Ok(Some(row)) => Ok(Some(record_view(row))),
        Ok(None) => Ok(None),
        Err(error) => Err(error@),
    }
}

/// The view of an optional record or a store failure.
pub open spec fn lookup_view(res: Result<Option<TransferRecord>, DbError>) -> Result<
    Option<RecordView>,
    DbErrorView,
> {
    match res {
        Ok(Some(record)) => Ok(Some(record@)),
        Ok(None) => Ok(None),
        Err(error) => Err(error@),
    }
}

/// Result of creating a transfer operation.
#[derive(Debug, PartialEq, Eq)]
pub enum CreateManagedAgentTransferResult {
    /// The operation is new and now stored.
    Created(TransferRecord),
    /// The operation was stored before; this is its record.
    AlreadyExists(TransferRecord),
}

impl Clone for CreateManagedAgentTransferResult {
    fn clone(&self) -> (res: Self)
        ensures
            res == *self,
    {
        match self {
            CreateManagedAgentTransferResult::Created(record) =>
                CreateManagedAgentTransferResult::Created(record.clone()),
            CreateManagedAgentTransferResult::AlreadyExists(record) =>
                CreateManagedAgentTransferResult::AlreadyExists(record.clone()),
        }
    }
}

/// The content of a [`CreateManagedAgentTransferResult`].
pub enum CreateView {
    Created(RecordView),
    AlreadyExists(RecordView),
}

impl View for CreateManagedAgentTransferResult {
    type V = CreateView;

    open spec fn view(&self) -> CreateView {
        match *self {
            CreateManagedAgentTransferResult::Created(record) => CreateView::Created(record@),
            CreateManagedAgentTransferResult::AlreadyExists(record) => CreateView::AlreadyExists(
                record@,
            ),
        }
    }
}

/// The view of the result of a creation.
pub open spec fn create_view(res: Result<CreateManagedAgentTransferResult, DbError>) -> Result<
    CreateView,
    DbErrorView,
> {
    match res {
        Ok(created) => Ok(created@),
        Err(error) => Err(error@),
    }
}

/// The refusal of a record under the scope of a community and an agent.
pub open spec fn scope_fault(
    community: Seq<char>,
    agent: Seq<char>,
    record: RecordView,
) -> Option<DbErrorView> {
    if record_fault(record) is Some {
        Some(DbErrorView::Transfer(record_fault(record)->0))
    } else if record.community_id != community {
        Some(
            DbErrorView::InvalidData(
                "transfer record community does not match the scoped database request"@,
            ),
        )
    } else if record.agent_pubkey != agent {
        Some(
            DbErrorView::InvalidData(
                "transfer record agent does not match the scoped database request"@,
            ),
        )
    } else {
        None
    }
}

/// Checks that a record is valid and belongs to the community and the agent.
pub fn validate_scope(
    community_id: CommunityId,
    agent_pubkey: &str,
    record: &TransferRecord,
) -> (res: Result<(), DbError>)
    ensures
        done_view(res).err() == scope_fault(community_id.text(), agent_pubkey@, record@),
{
    if let Err(error) = record.validate() {
        return Err(DbError::Transfer(error));
    }
    if !str_eq(record.community_id.as_str(), community_id.to_text().as_str()) {
        return Err(
            DbError::InvalidData(
                "transfer record community does not match the scoped database request".to_owned(),
            ),
        );
    }
    if !str_eq(record.agent_pubkey.as_str(), agent_pubkey) {
        return Err(
            DbError::InvalidData(
                "transfer record agent does not match the scoped database request".to_owned(),
            ),
        );
    }
    Ok(())
}

/// The record of a stored row, or the refusal of the row.
pub open spec fn decoded(
    community: Seq<char>,
    agent: Seq<char>,
    operation: Option<Seq<char>>,
    row: Result<RecordView, DbErrorView>,
) -> Result<RecordView, DbErrorView> {
    match row {
        Err(error) => Err(error),
        Ok(record) => if scope_fault(community, agent, record) is Some {
            Err(scope_fault(community, agent, record)->0)
        } else if operation is Some && record.operation_id != operation->0 {
            Err(
                DbErrorView::InvalidData(
                    "stored transfer operation id does not match the requested operation"@,
                ),
            )
        } else {
            Ok(record)
        },
    }
}

/// The view of an optional operation id.
pub open spec fn operation_view(operation_id: Option<&str>) -> Option<Seq<char>> {
    match operation_id {
        Some(text) => Some(text@),
        None => None,
    }
}

/// Checks a record that was read from a row; `row` holds the record, or the
/// failure to read it.
pub fn decode_record(
    community_id: CommunityId,
    agent_pubkey: &str,
    operation_id: Option<&str>,
    row: Result<TransferRecord, DbError>,
) -> (res: Result<TransferRecord, DbError>)
    ensures
        record_view(res) == decoded(
            community_id.text(),
            agent_pubkey@,
            operation_view(operation_id),
            record_view(row),
        ),
{
    let record = match row {
        Ok(record) => record,
        Err(error) => {
            return Err(error);
        },
    };
    if let Err(error) = validate_scope(community_id, agent_pubkey, &record) {
        return Err(error);
    }
    if let Some(operation_id) = operation_id {
        if !str_eq(record.operation_id.as_str(), operation_id) {
            return Err(
                DbError::InvalidData(
                    "stored transfer operation id does not match the requested operation".to_owned(),
                ),
            );
        }
    }
    Ok(record)
}

/// A transfer row that is to be stored.
#[derive(Debug, PartialEq, Eq)]
pub struct NewTransfer {
    /// Community of the row.
    pub community_id: CommunityId,
    /// Agent of the row.
    pub agent_pubkey: String,
    /// Operation of the row.
    pub operation_id: String,
    /// The record that the row holds.
    pub record: TransferRecord,
}

/// The content of a [`NewTransfer`].
pub struct NewTransferView {
    pub community_id: CommunityId,
    pub agent_pubkey: Seq<char>,
    pub operation_id: Seq<char>,
    pub record: RecordView,
}

impl View for NewTransfer {
    type V = NewTransferView;

    open spec fn view(&self) -> NewTransferView {
        NewTransferView {
            community_id: self.community_id,
            agent_pubkey: self.agent_pubkey@,
            operation_id: self.operation_id@,
            record: self.record@,
        }
    }
}

/// The row under which a record is stored in a community.
pub open spec fn row_of(community_id: CommunityId, record: RecordView) -> NewTransferView {
    NewTransferView {
        community_id,
        agent_pubkey: record.agent_pubkey,
        operation_id: record.operation_id,
        record,
    }
}

/// Makes the row under which a record is stored in a community.
pub fn transfer_row(community_id: CommunityId, record: &TransferRecord) -> (res: NewTransfer)
    ensures
        res@ == row_of(community_id, record@),
{
    NewTransfer {
        community_id,
        agent_pubkey: record.agent_pubkey.clone(),
        operation_id: record.operation_id.clone(),
        record: record.clone(),
    }
}

/// What to do next while an operation is created.
#[derive(Debug, PartialEq, Eq)]
pub enum CreateStep {
    /// Insert the row unless one conflicts with it, and return the stored record.
    Insert(NewTransfer),
    /// Read the row of the community and the agent.
    SelectExisting {
        /// Community of the row.
        community_id: CommunityId,
        /// Agent of the row.
        agent_pubkey: String,
    },
    /// The answer.
    Done(Result<CreateManagedAgentTransferResult, DbError>),
}

/// The content of a [`CreateStep`].
pub enum CreateStepView {
    Insert(NewTransferView),
    SelectExisting { community_id: CommunityId, agent_pubkey: Seq<char> },
    Done(Result<CreateView, DbErrorView>),
}

impl View for CreateStep {
    type V = CreateStepView;

    open spec fn view(&self) -> CreateStepView {
        match *self {
            CreateStep::Insert(row) => CreateStepView::Insert(row@),
            CreateStep::SelectExisting { community_id, agent_pubkey } =>
                CreateStepView::SelectExisting { community_id, agent_pubkey: agent_pubkey@ },
            CreateStep::Done(res) => CreateStepView::Done(create_view(res)),
        }
    }
}

/// The answer once the insertion has stored a row.
pub open spec fn created_answer(
    community: Seq<char>,
    agent: Seq<char>,
    row: Result<RecordView, DbErrorView>,
) -> Result<CreateView, DbErrorView> {
    match decoded(community, agent, None, row) {
        Ok(stored) => Ok(CreateView::Created(stored)),
        Err(error) => Err(error),
    }
}

/// The answer once the insertion has met a conflicting row.
pub open spec fn conflict_answer(
    community: Seq<char>,
    record: RecordView,
    existing: Result<Option<Result<RecordView, DbErrorView>>, DbErrorView>,
) -> Result<CreateView, DbErrorView> {
    match existing {
        Err(error) => Err(error),
        Ok(None) => Err(
            DbErrorView::InvalidData("transfer operation conflicts with another agent"@),
        ),
        Ok(Some(row)) => match decoded(community, record.agent_pubkey, None, row) {
            Err(error) => Err(error),
            Ok(stored) => if stored.operation_id == record.operation_id {
                Ok(CreateView::AlreadyExists(stored))
            } else {
                Err(
                    DbErrorView::InvalidData("another transfer operation already owns this agent"@),
                )
            },
        },
    }
}

/// The next step of a creation, given what the two statements returned so far.
pub open spec fn creation(
    community_id: CommunityId,
    record: RecordView,
    inserted: Option<Result<Option<Result<RecordView, DbErrorView>>, DbErrorView>>,
    existing: Option<Result<Option<Result<RecordView, DbErrorView>>, DbErrorView>>,
) -> CreateStepView {
    let community = community_id.text();
    if scope_fault(community, record.agent_pubkey, record) is Some {
        CreateStepView::Done(Err(scope_fault(community, record.agent_pubkey, record)->0))
    } else {
        match inserted {
            None => CreateStepView::Insert(row_of(community_id, record)),
            Some(Err(error)) => CreateStepView::Done(Err(error)),
            Some(Ok(Some(row))) => CreateStepView::Done(
                created_answer(community, record.agent_pubkey, row),
            ),
            Some(Ok(None)) => match existing {
                None => CreateStepView::SelectExisting {
                    community_id,
                    agent_pubkey: record.agent_pubkey,
                },
                Some(reply) => CreateStepView::Done(conflict_answer(community, record, reply)),
            },
        }
    }
}

/// The view of a statement's reply that may still be outstanding.
pub open spec fn pending_view(
    reply: Option<Result<Option<Result<TransferRecord, DbError>>, DbError>>,
) -> Option<Result<Option<Result<RecordView, DbErrorView>>, DbErrorView>> {
    match reply {
        Some(res) => Some(reply_view(res)),
        None => None,
    }
}

/// Creates or idempotently recovers one operation for an agent, step by step.
///
/// `inserted` is what the insertion returned and `existing` what the selection
/// returned, each `None` until it has been performed. A stored operation is
/// never replaced by another one.
pub fn create_managed_agent_transfer(
    community_id: CommunityId,
    record: &TransferRecord,
    inserted: Option<Result<Option<Result<TransferRecord, DbError>>, DbError>>,
    existing: Option<Result<Option<Result<TransferRecord, DbError>>, DbError>>,
) -> (res: CreateStep)
    ensures
        res@ == creation(community_id, record@, pending_view(inserted), pending_view(existing)),
{
    if let Err(error) = validate_scope(community_id, record.agent_pubkey.as_str(), record) {
        return CreateStep::Done(Err(error));
    }
    let inserted = match inserted {
        None => {
            return CreateStep::Insert(transfer_row(community_id, record));
        },
        Some(Err(error)) => {
            return CreateStep::Done(Err(error));
        },
        Some(Ok(row)) => row,
    };
    if let Some(row) = inserted {
        return match decode_record(community_id, record.agent_pubkey.as_str(), None, row) {
            Ok(stored) => CreateStep::Done(Ok(CreateManagedAgentTransferResult::Created(stored))),
            Err(error) => CreateStep::Done(Err(error)),
        };
    }
    match existing {
        None => CreateStep::SelectExisting {
            community_id,
            agent_pubkey: record.agent_pubkey.clone(),
        },
        Some(Err(error)) => CreateStep::Done(Err(error)),
        Some(Ok(Some(row))) => {
            let stored = match decode_record(
                community_id,
                record.agent_pubkey.as_str(),
                None,
                row,
            ) {
                Ok(stored) => stored,
                Err(error) => {
                    return CreateStep::Done(Err(error));
                },
            };
            if str_eq(stored.operation_id.as_str(), record.operation_id.as_str()) {
                return CreateStep::Done(
                    Ok(CreateManagedAgentTransferResult::AlreadyExists(stored)),
                );
            }
            CreateStep::Done(
                Err(
                    DbError::InvalidData(
                        "another transfer operation already owns this agent".to_owned(),
                    ),
                ),
            )
        },
        Some(Ok(None)) => CreateStep::Done(
            Err(
                DbError::InvalidData("transfer operation conflicts with another agent".to_owned()),
            ),
        ),
    }
}

/// The record that a selection by community and agent found.
pub open spec fn found(
    community: Seq<char>,
    agent: Seq<char>,
    reply: Result<Option<Result<RecordView, DbErrorView>>, DbErrorView>,
) -> Result<Option<RecordView>, DbErrorView> {
    match reply {
        Err(error) => Err(error),
        Ok(None) => Ok(None),
        Ok(Some(row)) => match decoded(community, agent, None, row) {
            Ok(record) => Ok(Some(record)),
            Err(error) => Err(error),
        },
    }
}

/// Reads the transfer record of an agent out of what the selection returned.
pub fn get_managed_agent_transfer(
    community_id: CommunityId,
    agent_pubkey: &str,
    reply: Result<Option<Result<TransferRecord, DbError>>, DbError>,
) -> (res: Result<Option<TransferRecord>, DbError>)
    ensures
        lookup_view(res) == found(community_id.text(), agent_pubkey@, reply_view(reply)),
{
    match reply {
        Err(error) => Err(error),
        Ok(None) => Ok(None),
        Ok(Some(row)) => match decode_record(community_id, agent_pubkey, None, row) {
            Ok(record) => Ok(Some(record)),
            Err(error) => Err(error),
        },
    }
}

/// The record that replaces a locked row, or the reason to leave the row alone.
pub open spec fn replacement(
    community: Seq<char>,
    agent: Seq<char>,
    operation: Seq<char>,
    expected_revision: u64,
    expected_epoch: u64,
    command: TransferCommand,
    reply: Result<Option<Result<RecordView, DbErrorView>>, DbErrorView>,
) -> Result<RecordView, DbErrorView> {
    match reply {
        Err(error) => Err(error),
        Ok(None) => Err(DbErrorView::NotFound("managed agent transfer"@)),
        Ok(Some(row)) => match decoded(community, agent, Some(operation), row) {
            Err(error) => Err(error),
            Ok(record) => match outcome(record, expected_revision, expected_epoch, command) {
                Ok(next) => Ok(next),
                Err(error) => Err(DbErrorView::Transfer(error)),
            },
        },
    }
}

/// Applies one fenced command to the row that was selected and locked.
///
/// The returned record is to be written back under the same lock; on a refusal
/// the row stays as it is.
pub fn apply_managed_agent_transfer(
    community_id: CommunityId,
    agent_pubkey: &str,
    operation_id: &str,
    expected_revision: u64,
    expected_epoch: u64,
    command: TransferCommand,
    reply: Result<Option<Result<TransferRecord, DbError>>, DbError>,
) -> (res: Result<TransferRecord, DbError>)
    ensures
        record_view(res) == replacement(
            community_id.text(),
            agent_pubkey@,
            operation_id@,
            expected_revision,
            expected_epoch,
            command,
            reply_view(reply),
        ),
{
    let row = match reply {
        Err(error) => {
            return Err(error);
        },
        Ok(None) => {
            return Err(DbError::NotFound("managed agent transfer".to_owned()));
        },
        Ok(Some(row)) => row,
    };
    let mut record = match decode_record(community_id, agent_pubkey, Some(operation_id), row) {
        Ok(record) => record,
        Err(error) => {
            return Err(error);
        },
    };
    match record.apply(expected_revision, expected_epoch, command) {
        Ok(()) => Ok(record),
        Err(error) => Err(DbError::Transfer(error)),
    }
}

/// A record that was inserted is returned as created, and is what a later read
/// of the agent finds.
pub proof fn law_created_records_are_read_back(community_id: CommunityId, record: RecordView)
    requires
        scope_fault(community_id.text(), record.agent_pubkey, record) is None,
    ensures
        creation(community_id, record, None, None) == CreateStepView::Insert(
            row_of(community_id, record),
        ),
        creation(community_id, record, Some(Ok(Some(Ok(record)))), None) == CreateStepView::Done(
            Ok(CreateView::Created(record)),
        ),
        found(community_id.text(), record.agent_pubkey, Ok(Some(Ok(record)))) == Ok::<
            Option<RecordView>,
            DbErrorView,
        >(Some(record)),
{
}

/// The stored records by community and agent.
pub type TransferTable = Map<(CommunityId, Seq<char>), RecordView>;

/// The table after an insertion that does nothing on a conflict, and what the
/// statement returns. A row conflicts with the row of the same community and
/// agent; `blocked` says whether another constraint of the table refuses it.
pub open spec fn row_insertion(table: TransferTable, row: NewTransferView, blocked: bool) -> (
    TransferTable,
    Result<Option<Result<RecordView, DbErrorView>>, DbErrorView>,
) {
    let key = (row.community_id, row.agent_pubkey);
    if table.contains_key(key) || blocked {
        (table, Ok(None))
    } else {
        (table.insert(key, row.record), Ok(Some(Ok(row.record))))
    }
}

/// What a selection by community and agent returns.
pub open spec fn row_selection(
    table: TransferTable,
    community_id: CommunityId,
    agent_pubkey: Seq<char>,
) -> Result<Option<Result<RecordView, DbErrorView>>, DbErrorView> {
    if table.contains_key((community_id, agent_pubkey)) {
        Ok(Some(Ok(table[(community_id, agent_pubkey)])))
    } else {
        Ok(None)
    }
}

/// The table after one step of a creation was performed on it, and the step that
/// follows.
pub open spec fn performed(
    table: TransferTable,
    community_id: CommunityId,
    record: RecordView,
    step: CreateStepView,
    blocked: bool,
) -> (TransferTable, CreateStepView) {
    match step {
        CreateStepView::Insert(row) => {
            let (after, reply) = row_insertion(table, row, blocked);
            (after, creation(community_id, record, Some(reply), None))
        },
        CreateStepView::SelectExisting { community_id: community, agent_pubkey } => (
            table,
            creation(
                community_id,
                record,
                Some(Ok(None)),
                Some(row_selection(table, community, agent_pubkey)),
            ),
        ),
        CreateStepView::Done(_) => (table, step),
    }
}

/// The table after a whole creation, and the step that it ends with.
pub open spec fn creation_run(
    table: TransferTable,
    community_id: CommunityId,
    record: RecordView,
    blocked: bool,
) -> (TransferTable, CreateStepView) {
    let first = creation(community_id, record, None, None);
    let (inserted, second) = performed(table, community_id, record, first, blocked);
    performed(inserted, community_id, record, second, blocked)
}

/// A creation keeps every stored row, whichever operation it belongs to, and
/// adds at most the one row of its community and agent. It always comes to an
/// answer: a new row is returned as created, a row of the agent that was there
/// is returned or refused by its operation, and a row that the table refuses
/// otherwise is refused too.
pub proof fn law_creation_keeps_the_stored_rows(
    table: TransferTable,
    community_id: CommunityId,
    record: RecordView,
    blocked: bool,
)
    ensures
        ({
            let key = (community_id, record.agent_pubkey);
            let community = community_id.text();
            let fault = scope_fault(community, record.agent_pubkey, record);
            let (after, end) = creation_run(table, community_id, record, blocked);
            &&& forall|k: (CommunityId, Seq<char>)| #[trigger]
                table.contains_key(k) ==> after.contains_key(k) && after[k] == table[k]
            &&& forall|k: (CommunityId, Seq<char>)| #[trigger]
                after.contains_key(k) ==> table.contains_key(k) || (k == key && after[k] == record)
            &&& if fault is Some {
                after == table && end == CreateStepView::Done(Err(fault->0))
            } else if table.contains_key(key) {
                after == table && end == CreateStepView::Done(
                    conflict_answer(community, record, Ok(Some(Ok(table[key])))),
                )
            } else if blocked {
                after == table && end == CreateStepView::Done(
                    conflict_answer(community, record, Ok(None)),
                )
            } else {
                after == table.insert(key, record) && end == CreateStepView::Done(
                    created_answer(community, record.agent_pubkey, Ok(record)),
                )
            }
        }),
{
}

/// After an operation was created for an agent, the same request returns the
/// stored record, any other operation of the agent is refused, and neither
/// changes the table.
pub proof fn law_one_operation_owns_an_agent(
    table: TransferTable,
    community_id: CommunityId,
    record: RecordView,
    other: RecordView,
    blocked: bool,
)
    requires
        scope_fault(community_id.text(), record.agent_pubkey, record) is None,
        scope_fault(community_id.text(), record.agent_pubkey, other) is None,
        other.operation_id != record.operation_id,
        !table.contains_key((community_id, record.agent_pubkey)),
    ensures
        ({
            let (after, end) = creation_run(table, community_id, record, false);
            &&& end == CreateStepView::Done(Ok(CreateView::Created(record)))
            &&& creation_run(after, community_id, record, blocked) == (
                after,
                CreateStepView::Done(Ok(CreateView::AlreadyExists(record))),
            )
            &&& creation_run(after, community_id, other, blocked) == (
                after,
                CreateStepView::Done(
                    Err(
                        DbErrorView::InvalidData(
                            "another transfer operation already owns this agent"@,
                        ),
                    ),
                ),
            )
            &&& found(
                community_id.text(),
                record.agent_pubkey,
                row_selection(after, community_id, record.agent_pubkey),
            ) == Ok::<Option<RecordView>, DbErrorView>(Some(record))
        }),
{
    law_creation_keeps_the_stored_rows(table, community_id, record, false);
    let (after, end) = creation_run(table, community_id, record, false);
    law_creation_keeps_the_stored_rows(after, community_id, record, blocked);
    law_creation_keeps_the_stored_rows(after, community_id, other, blocked);
}

/// Creating a stored operation again changes nothing and returns the stored
/// record, whatever progress it has made.
pub proof fn law_creation_is_idempotent(
    community_id: CommunityId,
    request: RecordView,
    stored: RecordView,
)
    requires
        scope_fault(community_id.text(), request.agent_pubkey, request) is None,
        scope_fault(community_id.text(), request.agent_pubkey, stored) is None,
        stored.operation_id == request.operation_id,
    ensures
        creation(community_id, request, Some(Ok(None)), Some(Ok(Some(Ok(stored)))))
            == CreateStepView::Done(Ok(CreateView::AlreadyExists(stored))),
{
}

/// While an operation is stored for an agent, no other operation is accepted.
pub proof fn law_stored_operations_are_not_replaced(
    community_id: CommunityId,
    request: RecordView,
    stored: RecordView,
)
    requires
        scope_fault(community_id.text(), request.agent_pubkey, request) is None,
        scope_fault(community_id.text(), request.agent_pubkey, stored) is None,
        stored.operation_id != request.operation_id,
    ensures
        creation(community_id, request, Some(Ok(None)), Some(Ok(Some(Ok(stored)))))
            == CreateStepView::Done(
            Err(DbErrorView::InvalidData("another transfer operation already owns this agent"@)),
        ),
{
}

/// A record outside the requested scope never reaches the database.
pub proof fn law_out_of_scope_records_are_not_inserted(
    community_id: CommunityId,
    record: RecordView,
    inserted: Option<Result<Option<Result<RecordView, DbErrorView>>, DbErrorView>>,
    existing: Option<Result<Option<Result<RecordView, DbErrorView>>, DbErrorView>>,
)
    requires
        record.community_id != community_id.text() || record_fault(record) is Some,
    ensures
        creation(community_id, record, inserted, existing) is Done,
        creation(community_id, record, inserted, existing)->Done_0 is Err,
{
}

/// A record that replaces a row is again readable as the row of the same
/// community, agent and operation.
pub proof fn law_replacements_stay_readable(
    community: Seq<char>,
    agent: Seq<char>,
    operation: Seq<char>,
    expected_revision: u64,
    expected_epoch: u64,
    command: TransferCommand,
    reply: Result<Option<Result<RecordView, DbErrorView>>, DbErrorView>,
)
    requires
        replacement(
            community,
            agent,
            operation,
            expected_revision,
            expected_epoch,
            command,
            reply,
        ) is Ok,
    ensures
        ({
            let next = replacement(
                community,
                agent,
                operation,
                expected_revision,
                expected_epoch,
                command,
                reply,
            )->Ok_0;
            &&& decoded(community, agent, Some(operation), Ok(next)) == Ok::<
                RecordView,
                DbErrorView,
            >(next)
            &&& found(community, agent, Ok(Some(Ok(next)))) == Ok::<
                Option<RecordView>,
                DbErrorView,
            >(Some(next))
            &&& next.revision == expected_revision + 1
        }),
{
}

/// Of two commands for one observed revision, the one that is applied to the
/// row second is refused as stale.
pub proof fn law_competing_commands_do_not_overwrite(
    community: Seq<char>,
    agent: Seq<char>,
    operation: Seq<char>,
    expected_revision: u64,
    first_epoch: u64,
    second_epoch: u64,
    first: TransferCommand,
    second: TransferCommand,
    stored: RecordView,
)
    requires
        replacement(
            community,
            agent,
            operation,
            expected_revision,
            first_epoch,
            first,
            Ok(Some(Ok(stored))),
        ) is Ok,
    ensures
        ({
            let next = replacement(
                community,
                agent,
                operation,
                expected_revision,
                first_epoch,
                first,
                Ok(Some(Ok(stored))),
            )->Ok_0;
            replacement(
                community,
                agent,
                operation,
                expected_revision,
                second_epoch,
                second,
                Ok(Some(Ok(next))),
            ) == Err::<RecordView, DbErrorView>(
                DbErrorView::Transfer(
                    Error::StaleRevision {
                        expected: expected_revision,
                        actual: (expected_revision + 1) as u64,
                    },
                ),
            )
        }),
{
}

/// A record is in scope exactly if it is valid and names the community and the
/// agent of the request; a refusal says which of these fails first.
pub proof fn law_scope_is_community_and_agent(
    community: Seq<char>,
    agent: Seq<char>,
    record: RecordView,
)
    ensures
        scope_fault(community, agent, record) is None <==> record_fault(record) is None
            && record.community_id == community && record.agent_pubkey == agent,
        record_fault(record) is Some ==> scope_fault(community, agent, record) == Some(
            DbErrorView::Transfer(record_fault(record)->0),
        ),
        record_fault(record) is None && record.community_id != community ==> scope_fault(
            community,
            agent,
            record,
        ) == Some(
            DbErrorView::InvalidData(
                "transfer record community does not match the scoped database request"@,
            ),
        ),
        record_fault(record) is None && record.community_id == community && record.agent_pubkey
            != agent ==> scope_fault(community, agent, record) == Some(
            DbErrorView::InvalidData(
                "transfer record agent does not match the scoped database request"@,
            ),
        ),
{
}

/// A stored row is read as the record that it holds, and only within its scope
/// and for its own operation; a row that could not be read stays unread.
pub proof fn law_rows_are_read_within_their_scope(
    community: Seq<char>,
    agent: Seq<char>,
    operation: Option<Seq<char>>,
    record: RecordView,
    error: DbErrorView,
)
    ensures
        record_fault(record) is None && record.community_id == community && record.agent_pubkey
            == agent && (operation is None || operation == Some(record.operation_id)) ==> decoded(
            community,
            agent,
            operation,
            Ok(record),
        ) == Ok::<RecordView, DbErrorView>(record),
        record_fault(record) is Some || record.community_id != community || record.agent_pubkey
            != agent || (operation is Some && operation != Some(record.operation_id)) ==> decoded(
            community,
            agent,
            operation,
            Ok(record),
        ) is Err,
        scope_fault(community, agent, record) is Some ==> decoded(
            community,
            agent,
            operation,
            Ok(record),
        ) == Err::<RecordView, DbErrorView>(scope_fault(community, agent, record)->0),
        scope_fault(community, agent, record) is None && operation is Some && operation != Some(
            record.operation_id,
        ) ==> decoded(community, agent, operation, Ok(record)) == Err::<RecordView, DbErrorView>(
            DbErrorView::InvalidData(
                "stored transfer operation id does not match the requested operation"@,
            ),
        ),
        decoded(community, agent, operation, Err(error)) == Err::<RecordView, DbErrorView>(error),
{
}

/// A read finds the row that is there, nothing where none is, and passes on what
/// went wrong.
pub proof fn law_reads_find_what_is_stored(
    community: Seq<char>,
    agent: Seq<char>,
    stored: RecordView,
    error: DbErrorView,
)
    ensures
        found(community, agent, Ok(None)) == Ok::<Option<RecordView>, DbErrorView>(None),
        found(community, agent, Err(error)) == Err::<Option<RecordView>, DbErrorView>(error),
        found(community, agent, Ok(Some(Err(error)))) == Err::<Option<RecordView>, DbErrorView>(
            error,
        ),
        scope_fault(community, agent, stored) is None ==> found(
            community,
            agent,
            Ok(Some(Ok(stored))),
        ) == Ok::<Option<RecordView>, DbErrorView>(Some(stored)),
        scope_fault(community, agent, stored) is Some ==> found(
            community,
            agent,
            Ok(Some(Ok(stored))),
        ) == Err::<Option<RecordView>, DbErrorView>(scope_fault(community, agent, stored)->0),
{
}

/// A request in scope is first inserted, as the row of its community, agent and
/// operation; only if that made no row is the row of the agent read. A request
/// out of scope is refused whatever the statements returned.
pub proof fn law_creation_inserts_before_it_reads(
    community_id: CommunityId,
    record: RecordView,
    inserted: Option<Result<Option<Result<RecordView, DbErrorView>>, DbErrorView>>,
    existing: Option<Result<Option<Result<RecordView, DbErrorView>>, DbErrorView>>,
    row: Result<RecordView, DbErrorView>,
    error: DbErrorView,
)
    ensures
        ({
            let fault = scope_fault(community_id.text(), record.agent_pubkey, record);
            &&& fault is Some ==> creation(community_id, record, inserted, existing)
                == CreateStepView::Done(Err(fault->0))
            &&& fault is None ==> {
                &&& creation(community_id, record, None, existing) == CreateStepView::Insert(
                    NewTransferView {
                        community_id,
                        agent_pubkey: record.agent_pubkey,
                        operation_id: record.operation_id,
                        record,
                    },
                )
                &&& creation(community_id, record, Some(Err(error)), existing)
                    == CreateStepView::Done(Err(error))
                &&& creation(community_id, record, Some(Ok(None)), None)
                    == CreateStepView::SelectExisting {
                    community_id,
                    agent_pubkey: record.agent_pubkey,
                }
                &&& creation(community_id, record, Some(Ok(None)), Some(Err(error)))
                    == CreateStepView::Done(Err(error))
                &&& creation(community_id, record, Some(Ok(None)), Some(Ok(None)))
                    == CreateStepView::Done(
                    Err(
                        DbErrorView::InvalidData("transfer operation conflicts with another agent"@),
                    ),
                )
                &&& match decoded(community_id.text(), record.agent_pubkey, None, row) {
                    Ok(stored) => {
                        &&& creation(community_id, record, Some(Ok(Some(row))), existing)
                            == CreateStepView::Done(Ok(CreateView::Created(stored)))
                        &&& stored.operation_id == record.operation_id ==> creation(
                            community_id,
                            record,
                            Some(Ok(None)),
                            Some(Ok(Some(row))),
                        ) == CreateStepView::Done(Ok(CreateView::AlreadyExists(stored)))
                        &&& stored.operation_id != record.operation_id ==> creation(
                            community_id,
                            record,
                            Some(Ok(None)),
                            Some(Ok(Some(row))),
                        ) == CreateStepView::Done(
                            Err(
                                DbErrorView::InvalidData(
                                    "another transfer operation already owns this agent"@,
                                ),
                            ),
                        )
                    },
                    Err(unread) => {
                        &&& creation(community_id, record, Some(Ok(Some(row))), existing)
                            == CreateStepView::Done(Err(unread))
                        &&& creation(community_id, record, Some(Ok(None)), Some(Ok(Some(row))))
                            == CreateStepView::Done(Err(unread))
                    },
                }
            }
        }),
{
}

/// A command is applied to the row of its community, agent and operation by the
/// state machine, whose answer is the store's; without such a row nothing is
/// replaced.
pub proof fn law_commands_are_applied_by_the_state_machine(
    community: Seq<char>,
    agent: Seq<char>,
    operation: Seq<char>,
    expected_revision: u64,
    expected_epoch: u64,
    command: TransferCommand,
    stored: RecordView,
    error: DbErrorView,
)
    ensures
        ({
            let applied = |reply: Result<Option<Result<RecordView, DbErrorView>>, DbErrorView>|
                replacement(
                    community,
                    agent,
                    operation,
                    expected_revision,
                    expected_epoch,
                    command,
                    reply,
                );
            &&& applied(Ok(None)) == Err::<RecordView, DbErrorView>(
                DbErrorView::NotFound("managed agent transfer"@),
            )
            &&& applied(Err(error)) == Err::<RecordView, DbErrorView>(error)
            &&& applied(Ok(Some(Err(error)))) == Err::<RecordView, DbErrorView>(error)
            &&& record_fault(stored) is None && stored.community_id == community
                && stored.agent_pubkey == agent && stored.operation_id == operation ==> match outcome(
                stored,
                expected_revision,
                expected_epoch,
                command,
            ) {
                Ok(next) => applied(Ok(Some(Ok(stored)))) == Ok::<RecordView, DbErrorView>(next),
                Err(refusal) => applied(Ok(Some(Ok(stored)))) == Err::<RecordView, DbErrorView>(
                    DbErrorView::Transfer(refusal),
                ),
            }
            &&& scope_fault(community, agent, stored) is Some ==> applied(Ok(Some(Ok(stored))))
                == Err::<RecordView, DbErrorView>(scope_fault(community, agent, stored)->0)
            &&& scope_fault(community, agent, stored) is None && stored.operation_id != operation
                ==> applied(Ok(Some(Ok(stored)))) == Err::<RecordView, DbErrorView>(
                DbErrorView::InvalidData(
                    "stored transfer operation id does not match the requested operation"@,
                ),
            )
        }),
{
}

/// The views of failures, of created records and of replies show what they hold.
pub proof fn law_store_views_are_complete(
    text: String,
    refusal: Error,
    failure: DbError,
    record: TransferRecord,
    row: NewTransfer,
)
    ensures
        DbError::NotFound(text)@ == DbErrorView::NotFound(text@),
        DbError::InvalidData(text)@ == DbErrorView::InvalidData(text@),
        DbError::Transfer(refusal)@ == DbErrorView::Transfer(refusal),
        DbError::Other(text)@ == DbErrorView::Other(text@),
        CreateManagedAgentTransferResult::Created(record)@ == CreateView::Created(record@),
        CreateManagedAgentTransferResult::AlreadyExists(record)@ == CreateView::AlreadyExists(
            record@,
        ),
        row@.community_id == row.community_id,
        row@.agent_pubkey == row.agent_pubkey@,
        row@.operation_id == row.operation_id@,
        row@.record == row.record@,
        done_view(Ok(())) is Ok,
        done_view(Err(failure)) == Err::<(), DbErrorView>(failure@),
        record_view(Ok(record)) == Ok::<RecordView, DbErrorView>(record@),
        record_view(Err(failure)) == Err::<RecordView, DbErrorView>(failure@),
        lookup_view(Ok(Some(record))) == Ok::<Option<RecordView>, DbErrorView>(Some(record@)),
        lookup_view(Ok(None)) == Ok::<Option<RecordView>, DbErrorView>(None),
        lookup_view(Err(failure)) == Err::<Option<RecordView>, DbErrorView>(failure@),
        reply_view(Ok(Some(Ok(record)))) == Ok::<
            Option<Result<RecordView, DbErrorView>>,
            DbErrorView,
        >(Some(Ok(record@))),
        reply_view(Ok(None)) == Ok::<Option<Result<RecordView, DbErrorView>>, DbErrorView>(None),
        reply_view(Err(failure)) == Err::<Option<Result<RecordView, DbErrorView>>, DbErrorView>(
            failure@,
        ),
        pending_view(None) is None,
        create_view(Err(failure)) == Err::<CreateView, DbErrorView>(failure@),
{
}

/// The view of a step of a creation shows the row, the key or the answer that it
/// carries.
pub proof fn law_create_step_views_are_complete(step: CreateStep)
    ensures
        step matches CreateStep::Insert(row) ==> step@ == CreateStepView::Insert(row@),
        step matches CreateStep::SelectExisting { community_id, agent_pubkey } ==> step@ == (
        CreateStepView::SelectExisting { community_id, agent_pubkey: agent_pubkey@ }),
        step matches CreateStep::Done(Ok(created)) ==> step@ == CreateStepView::Done(Ok(created@)),
        step matches CreateStep::Done(Err(error)) ==> step@ == CreateStepView::Done(Err(error@)),
{
}

} // verus!
