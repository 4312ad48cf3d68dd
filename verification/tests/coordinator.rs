use buzz_transfer::agent_transfer::{Error, Executor, TransferCommand, TransferRecord};
use buzz_transfer::coordinator::{
    canonical_agent_pubkey, map_coordinator_error, rejected_response, require_executor_identity,
    resume, wire_response, CoordinatorOutcome, CoordinatorReply, CoordinatorStep,
    ExecutorCommandRequest, OwnerPurpose, TransferCoordinator, TransferCoordinatorError,
};
use buzz_transfer::keys::CommunityId;
use buzz_transfer::transfer_store::{CreateManagedAgentTransferResult, DbError};
use buzz_transfer::wire::{
    TransferOwnerRequest, TransferWireErrorCode, TransferWireMessage, TransferWireResponse,
    WireError,
};

type Step = CoordinatorStep<u32>;

const COMMUNITY: CommunityId = CommunityId { uuid: [7; 16] };

fn agent_hex() -> String {
    "ab".repeat(32)
}

fn record() -> TransferRecord {
    TransferRecord::new(
        &COMMUNITY.to_text(),
        &agent_hex(),
        "operation-1",
        Executor::new("mac-1", "Mac").unwrap(),
        Executor::new("server-1", "Server").unwrap(),
        1,
    )
    .unwrap()
}

fn request() -> ExecutorCommandRequest {
    ExecutorCommandRequest {
        agent_pubkey: agent_hex(),
        operation_id: "operation-1".into(),
        executor_instance_id: "mac-1".into(),
        expected_revision: 0,
        expected_epoch: 1,
        command: TransferCommand::BeginDrain,
    }
}

fn refused(error: TransferCoordinatorError) -> Step {
    CoordinatorStep::Done(Err(error))
}

#[test]
fn canonical_agent_pubkey_requires_lowercase_32_byte_hex() {
    let value = "ab".repeat(32);
    assert_eq!(canonical_agent_pubkey(&value).unwrap().len(), 32);
    assert!(canonical_agent_pubkey(&value.to_ascii_uppercase()).is_err());
    assert!(canonical_agent_pubkey("not-a-pubkey").is_err());
    assert!(canonical_agent_pubkey(&"ab".repeat(31)).is_err());
}

#[test]
fn executor_command_must_be_signed_by_the_named_agent() {
    let command = ExecutorCommandRequest {
        agent_pubkey: "ab".repeat(32),
        operation_id: "operation-1".into(),
        executor_instance_id: "server-1".into(),
        expected_revision: 0,
        expected_epoch: 1,
        command: TransferCommand::BeginDrain,
    };
    assert!(require_executor_identity(&[0xab; 32], &command).is_ok());
    assert!(matches!(
        require_executor_identity(&[0xcd; 32], &command),
        Err(TransferCoordinatorError::ExecutorIdentityMismatch)
    ));
}

#[test]
fn a_start_request_waits_for_its_owner() {
    let coordinator = TransferCoordinator::new("handle");
    assert_eq!(*coordinator.db(), "handle");
    let step: Step = coordinator.start_for_owner(COMMUNITY, &[5; 32], record());
    assert_eq!(
        step,
        CoordinatorStep::AwaitOwner {
            community_id: COMMUNITY,
            agent_key: [0xab; 32],
            actor: [5; 32],
            purpose: OwnerPurpose::Start { record: record() },
        }
    );
    let step = resume(step, CoordinatorReply::Owner(Ok(true)));
    assert_eq!(
        step,
        CoordinatorStep::AwaitCreate {
            community_id: COMMUNITY,
            record: record()
        }
    );
    let created = CreateManagedAgentTransferResult::Created(record());
    let step = resume(step, CoordinatorReply::Created(Ok(created)));
    let CoordinatorStep::Done(Ok(done)) = step else {
        panic!("operation has ended");
    };
    assert_eq!(
        wire_response(done),
        TransferWireResponse::Accepted {
            transfer: Box::new(record())
        }
    );
}

#[test]
fn a_recovered_start_is_accepted_too() {
    let done: CoordinatorOutcome<u32> =
        CoordinatorOutcome::Started(CreateManagedAgentTransferResult::AlreadyExists(record()));
    assert_eq!(
        wire_response(done),
        TransferWireResponse::Accepted {
            transfer: Box::new(record())
        }
    );
}

#[test]
fn strangers_are_turned_away() {
    let coordinator = TransferCoordinator::new(());
    let step: Step = coordinator.start_for_owner(COMMUNITY, &[5; 31], record());
    assert_eq!(step, refused(TransferCoordinatorError::Unauthorized));

    let step: Step = coordinator.status_for_owner(COMMUNITY, &[5; 32], "AB");
    assert_eq!(step, refused(TransferCoordinatorError::InvalidAgentPubkey));

    let step: Step = coordinator.status_for_owner(COMMUNITY, &[5; 32], &agent_hex());
    assert_eq!(
        resume(step, CoordinatorReply::Owner(Ok(false))),
        refused(TransferCoordinatorError::Unauthorized)
    );

    let step: Step = coordinator.journal_for_owner(COMMUNITY, &[5; 32], &agent_hex(), 10);
    let failure = || DbError::Other("down".into());
    assert_eq!(
        resume(step, CoordinatorReply::Owner(Err(failure()))),
        refused(TransferCoordinatorError::Database(failure()))
    );
}

#[test]
fn status_and_journal_are_read_for_the_owner() {
    let coordinator = TransferCoordinator::new(());
    let step: Step = coordinator.status_for_owner(COMMUNITY, &[5; 32], &agent_hex());
    let step = resume(step, CoordinatorReply::Owner(Ok(true)));
    assert_eq!(
        step,
        CoordinatorStep::AwaitStatus {
            community_id: COMMUNITY,
            agent_pubkey: agent_hex()
        }
    );
    let step = resume(step, CoordinatorReply::Record(Ok(Some(record()))));
    let CoordinatorStep::Done(Ok(done)) = step else {
        panic!("operation has ended");
    };
    assert_eq!(
        wire_response(done),
        TransferWireResponse::Status {
            transfer: Some(Box::new(record()))
        }
    );

    let step: Step = coordinator.journal_for_owner(COMMUNITY, &[5; 32], &agent_hex(), 10);
    let step = resume(step, CoordinatorReply::Owner(Ok(true)));
    assert_eq!(
        step,
        CoordinatorStep::AwaitJournal {
            community_id: COMMUNITY,
            agent_pubkey: agent_hex(),
            limit: 10
        }
    );
    assert_eq!(
        resume(step, CoordinatorReply::Journal(Ok(vec![3, 4]))),
        CoordinatorStep::Done(Ok(CoordinatorOutcome::Journal(vec![3, 4])))
    );
}

#[test]
fn a_fenced_command_is_applied() {
    let coordinator = TransferCoordinator::new(());
    let message = TransferWireMessage::ExecutorCommand { command: request() };
    let step: Step = coordinator.dispatch_wire(COMMUNITY, &[0xab; 32], message, Ok(()));
    assert_eq!(
        step,
        CoordinatorStep::AwaitCurrent {
            community_id: COMMUNITY,
            agent_pubkey: agent_hex(),
            request: request()
        }
    );
    let step = resume(step, CoordinatorReply::Record(Ok(Some(record()))));
    assert_eq!(
        step,
        CoordinatorStep::AwaitApply {
            community_id: COMMUNITY,
            agent_pubkey: agent_hex(),
            request: request()
        }
    );
    let step = resume(step, CoordinatorReply::Applied(Ok(record())));
    let CoordinatorStep::Done(Ok(done)) = step else {
        panic!("operation has ended");
    };
    assert_eq!(
        wire_response(done),
        TransferWireResponse::Applied {
            transfer: Box::new(record())
        }
    );
}

#[test]
fn the_fence_looks_at_every_part() {
    let coordinator = TransferCoordinator::new(());
    let after_read = |request: ExecutorCommandRequest, current: TransferRecord| {
        let step: Step = coordinator.apply_from_executor(COMMUNITY, request, Ok(()));
        resume(step, CoordinatorReply::Record(Ok(Some(current))))
    };
    let mismatch = || refused(TransferCoordinatorError::ExecutorMismatch);

    let mut other = request();
    other.operation_id = "operation-2".into();
    assert_eq!(after_read(other, record()), mismatch());

    let mut other = request();
    other.expected_revision = 1;
    assert_eq!(after_read(other, record()), mismatch());

    let mut other = request();
    other.expected_epoch = 2;
    assert_eq!(after_read(other, record()), mismatch());

    let mut other = request();
    other.executor_instance_id = "server-1".into();
    assert_eq!(after_read(other, record()), mismatch());

    let mut current = record();
    current.active_executor = None;
    assert_eq!(after_read(request(), current), mismatch());
}

#[test]
fn a_command_needs_a_stored_transfer() {
    let coordinator = TransferCoordinator::new(());
    let step: Step = coordinator.apply_from_executor(COMMUNITY, request(), Ok(()));
    assert_eq!(
        resume(step, CoordinatorReply::Record(Ok(None))),
        refused(TransferCoordinatorError::Database(DbError::NotFound(
            "managed agent transfer".into()
        )))
    );
}

#[test]
fn malformed_messages_are_refused_at_once() {
    let coordinator = TransferCoordinator::new(());
    let fault = || WireError {
        message: "operation id is empty".into(),
    };
    let step: Step = coordinator.apply_from_executor(COMMUNITY, request(), Err(fault()));
    assert_eq!(step, refused(TransferCoordinatorError::InvalidCommand(fault())));

    let mut bad = request();
    bad.agent_pubkey = "xyz".into();
    let step: Step = coordinator.dispatch_wire(
        COMMUNITY,
        &[0xab; 32],
        TransferWireMessage::ExecutorCommand { command: bad },
        Ok(()),
    );
    assert_eq!(step, refused(TransferCoordinatorError::InvalidAgentPubkey));

    let step: Step = coordinator.dispatch_wire(
        COMMUNITY,
        &[0xcd; 32],
        TransferWireMessage::ExecutorCommand { command: request() },
        Err(fault()),
    );
    assert_eq!(step, refused(TransferCoordinatorError::ExecutorIdentityMismatch));

    let step: Step = coordinator.dispatch_wire(
        COMMUNITY,
        &[0xab; 32],
        TransferWireMessage::Response {
            response: TransferWireResponse::Status { transfer: None },
        },
        Ok(()),
    );
    assert_eq!(step, refused(TransferCoordinatorError::UnsupportedMessage));
}

#[test]
fn wire_owner_requests_wait_for_the_lookup_of_their_signer() {
    let coordinator = TransferCoordinator::new(());
    let step: Step = coordinator.dispatch_wire(
        COMMUNITY,
        &[9; 32],
        TransferWireMessage::OwnerRequest {
            request: TransferOwnerRequest::Status {
                agent_pubkey: agent_hex(),
            },
        },
        Ok(()),
    );
    assert_eq!(
        step,
        CoordinatorStep::AwaitOwner {
            community_id: COMMUNITY,
            agent_key: [0xab; 32],
            actor: [9; 32],
            purpose: OwnerPurpose::Status {
                agent_pubkey: agent_hex()
            },
        }
    );
}

#[test]
fn every_error_has_its_refusal() {
    let cases = [
        (
            TransferCoordinatorError::Unauthorized,
            TransferWireErrorCode::Unauthorized,
            "owner authorization is required",
        ),
        (
            TransferCoordinatorError::ExecutorIdentityMismatch,
            TransferWireErrorCode::Unauthorized,
            "signed identity does not match the managed agent",
        ),
        (
            TransferCoordinatorError::ExecutorMismatch,
            TransferWireErrorCode::StaleState,
            "transfer state is stale; refresh status before retrying",
        ),
        (
            TransferCoordinatorError::InvalidAgentPubkey,
            TransferWireErrorCode::InvalidRequest,
            "managed agent public key is invalid",
        ),
        (
            TransferCoordinatorError::UnsupportedMessage,
            TransferWireErrorCode::InvalidRequest,
            "unsupported transfer coordinator message",
        ),
        (
            TransferCoordinatorError::InvalidCommand(WireError {
                message: "secret".into(),
            }),
            TransferWireErrorCode::InvalidRequest,
            "executor command is invalid",
        ),
        (
            TransferCoordinatorError::Database(DbError::NotFound("row".into())),
            TransferWireErrorCode::Conflict,
            "transfer operation was not found",
        ),
        (
            TransferCoordinatorError::Database(DbError::InvalidData("row".into())),
            TransferWireErrorCode::Conflict,
            "transfer request conflicts with current state",
        ),
    ];
    for (error, code, detail) in cases {
        assert_eq!(map_coordinator_error(error), Some(rejected_response(code, detail)));
    }
    for failure in [
        DbError::Other("down".into()),
        DbError::Transfer(Error::SameExecutor),
    ] {
        assert_eq!(
            map_coordinator_error(TransferCoordinatorError::Database(failure)),
            None
        );
    }
}
