use buzz_transfer::agent_transfer::{
    Error, Executor, TransferCommand, TransferPhase, TransferRecord,
};
use buzz_transfer::keys::CommunityId;
use buzz_transfer::transfer_store::{
    apply_managed_agent_transfer, create_managed_agent_transfer, decode_record,
    get_managed_agent_transfer, validate_scope, CreateManagedAgentTransferResult, CreateStep,
    DbError, NewTransfer,
};
use uuid::Uuid;

fn record() -> TransferRecord {
    TransferRecord::new(
        &Uuid::nil().to_string(),
        "agent-pubkey",
        "operation-1",
        Executor::new("mac-1", "Mac").unwrap(),
        Executor::new("server-1", "Server").unwrap(),
        3,
    )
    .unwrap()
}

fn community() -> CommunityId {
    CommunityId::from_uuid(*Uuid::nil().as_bytes())
}

fn invalid<T>(text: &str) -> Result<T, DbError> {
    Err(DbError::InvalidData(text.to_string()))
}

#[test]
fn scope_validation_binds_record_to_the_database_request() {
    let community = community();
    let record = record();
    assert!(validate_scope(community, "agent-pubkey", &record).is_ok());
    assert!(validate_scope(community, "other-agent", &record).is_err());
}

#[test]
fn scope_faults_are_told_apart() {
    assert_eq!(
        validate_scope(community(), "other-agent", &record()),
        invalid("transfer record agent does not match the scoped database request")
    );
    assert_eq!(
        validate_scope(CommunityId::from_uuid([1; 16]), "agent-pubkey", &record()),
        invalid("transfer record community does not match the scoped database request")
    );
    let mut broken = record();
    broken.protocol_version = 0;
    assert_eq!(
        validate_scope(community(), "other-agent", &broken),
        Err(DbError::Transfer(Error::UnsupportedProtocol(0)))
    );
}

#[test]
fn stored_rows_are_checked_against_the_operation() {
    assert_eq!(
        decode_record(community(), "agent-pubkey", Some("operation-1"), Ok(record())),
        Ok(record())
    );
    assert_eq!(
        decode_record(community(), "agent-pubkey", Some("operation-2"), Ok(record())),
        invalid("stored transfer operation id does not match the requested operation")
    );
    assert_eq!(
        decode_record(community(), "agent-pubkey", None, Err(DbError::Other("json".into()))),
        Err(DbError::Other("json".into()))
    );
}

#[test]
fn a_new_operation_is_inserted_and_read_back() {
    assert_eq!(
        create_managed_agent_transfer(community(), &record(), None, None),
        CreateStep::Insert(NewTransfer {
            community_id: community(),
            agent_pubkey: "agent-pubkey".into(),
            operation_id: "operation-1".into(),
            record: record(),
        })
    );
    assert_eq!(
        create_managed_agent_transfer(community(), &record(), Some(Ok(Some(Ok(record())))), None),
        CreateStep::Done(Ok(CreateManagedAgentTransferResult::Created(record())))
    );
    assert_eq!(
        get_managed_agent_transfer(community(), "agent-pubkey", Ok(Some(Ok(record())))),
        Ok(Some(record()))
    );
    assert_eq!(get_managed_agent_transfer(community(), "agent-pubkey", Ok(None)), Ok(None));
}

#[test]
fn creating_a_stored_operation_again_returns_its_progress() {
    let mut stored = record();
    stored.apply(0, 1, TransferCommand::BeginDrain).unwrap();
    assert_eq!(
        create_managed_agent_transfer(community(), &record(), Some(Ok(None)), None),
        CreateStep::SelectExisting {
            community_id: community(),
            agent_pubkey: "agent-pubkey".into(),
        }
    );
    assert_eq!(
        create_managed_agent_transfer(
            community(),
            &record(),
            Some(Ok(None)),
            Some(Ok(Some(Ok(stored.clone())))),
        ),
        CreateStep::Done(Ok(CreateManagedAgentTransferResult::AlreadyExists(stored)))
    );
}

#[test]
fn a_stored_operation_is_not_replaced() {
    let mut other = record();
    other.operation_id = "operation-2".into();
    assert_eq!(
        create_managed_agent_transfer(
            community(),
            &other,
            Some(Ok(None)),
            Some(Ok(Some(Ok(record())))),
        ),
        CreateStep::Done(invalid("another transfer operation already owns this agent"))
    );
    assert_eq!(
        create_managed_agent_transfer(community(), &other, Some(Ok(None)), Some(Ok(None))),
        CreateStep::Done(invalid("transfer operation conflicts with another agent"))
    );
}

#[test]
fn an_out_of_scope_record_never_reaches_the_database() {
    assert_eq!(
        create_managed_agent_transfer(CommunityId::from_uuid([9; 16]), &record(), None, None),
        CreateStep::Done(invalid(
            "transfer record community does not match the scoped database request"
        ))
    );
}

#[test]
fn store_failures_are_passed_on() {
    let failure = || DbError::Other("connection lost".into());
    assert_eq!(
        create_managed_agent_transfer(community(), &record(), Some(Err(failure())), None),
        CreateStep::Done(Err(failure()))
    );
    assert_eq!(
        create_managed_agent_transfer(community(), &record(), Some(Ok(None)), Some(Err(failure()))),
        CreateStep::Done(Err(failure()))
    );
    assert_eq!(
        get_managed_agent_transfer(community(), "agent-pubkey", Err(failure())),
        Err(failure())
    );
}

#[test]
fn a_competing_command_is_refused_as_stale() {
    let apply = |row: TransferRecord, command: TransferCommand| {
        apply_managed_agent_transfer(
            community(),
            "agent-pubkey",
            "operation-1",
            0,
            1,
            command,
            Ok(Some(Ok(row))),
        )
    };
    let next = apply(record(), TransferCommand::BeginDrain).unwrap();
    assert_eq!(next.phase, TransferPhase::Draining);
    assert_eq!(next.revision, 1);
    assert_eq!(
        apply(next, TransferCommand::Cancel),
        Err(DbError::Transfer(Error::StaleRevision {
            expected: 0,
            actual: 1
        }))
    );
}

#[test]
fn commands_need_the_row_of_their_operation() {
    let apply = |operation: &str, reply: Result<Option<Result<TransferRecord, DbError>>, DbError>| {
        apply_managed_agent_transfer(
            community(),
            "agent-pubkey",
            operation,
            0,
            1,
            TransferCommand::BeginDrain,
            reply,
        )
    };
    assert_eq!(
        apply("operation-1", Ok(None)),
        Err(DbError::NotFound("managed agent transfer".into()))
    );
    assert_eq!(
        apply("operation-2", Ok(Some(Ok(record())))),
        invalid("stored transfer operation id does not match the requested operation")
    );
}
