use buzz_transfer::agent_transfer::{Executor, TransferCommand, TransferRecord};
use buzz_transfer::coordinator::{rejected_response, TransferCoordinatorError};
use buzz_transfer::coordinator_handler::{
    fresh, handle_coordinator_event, message_dispatched, owner_looked_up, refusal_frame,
    send_coordinator_response, verify_coordinator_event, Answer, HandlerStep, OkFrame,
    Verification, COORDINATOR_DELIVERY_SUB_ID,
};
use buzz_transfer::coordinator_route::CoordinatorRoute;
use buzz_transfer::keys::CommunityId;
use buzz_transfer::signed_event::SignedEvent;
use buzz_transfer::transfer_store::DbError;
use buzz_transfer::wire::{
    TransferCoordinatorEnvelope, TransferCoordinatorMessage, TransferExecutorCommand,
    TransferOwnerRequest, TransferWireErrorCode, TransferWireMessage, TransferWireResponse,
};

const COMMUNITY: CommunityId = CommunityId { uuid: [7; 16] };
const NOW: i64 = 1_700_000_000;

fn agent_hex() -> String {
    "0b".repeat(32)
}

fn route() -> CoordinatorRoute {
    CoordinatorRoute {
        owner: [0x0a; 32],
        agent: [0x0b; 32],
    }
}

fn event(created_at: u64) -> SignedEvent {
    SignedEvent {
        id: [1; 32],
        pubkey: [0x0a; 32],
        created_at,
        kind: 24_260,
        tags: vec![
            vec!["p".to_string(), "0a".repeat(32)],
            vec!["agent".to_string(), agent_hex()],
        ],
        content: String::new(),
        sig: [0; 64],
    }
}

fn record() -> TransferRecord {
    TransferRecord::new(
        &COMMUNITY.to_text(),
        &agent_hex(),
        "operation-1",
        Executor::new("mac-1", "Mac").unwrap(),
        Executor::new("server-1", "Server").unwrap(),
        1,
    )
    .unwrap()
}

fn start() -> TransferCoordinatorEnvelope {
    TransferCoordinatorEnvelope {
        message_id: "message-1".into(),
        message: TransferCoordinatorMessage::OwnerRequest {
            request: TransferOwnerRequest::Start {
                transfer: Box::new(record()),
            },
        },
    }
}

fn status() -> TransferCoordinatorEnvelope {
    TransferCoordinatorEnvelope {
        message_id: "message-2".into(),
        message: TransferCoordinatorMessage::OwnerRequest {
            request: TransferOwnerRequest::Status {
                agent_pubkey: agent_hex(),
            },
        },
    }
}

fn refusal(text: &str) -> HandlerStep {
    HandlerStep::Answered(Answer::Refusal {
        message: text.to_string(),
    })
}

#[test]
fn freshness_spans_five_minutes_both_ways() {
    let now = NOW as u64;
    assert!(fresh(now, NOW));
    assert!(fresh(now + 300, NOW));
    assert!(fresh(now - 300, NOW));
    assert!(!fresh(now + 301, NOW));
    assert!(!fresh(now - 301, NOW));
    assert!(!fresh(u64::MAX, NOW));
    assert!(!fresh(1u64 << 63, NOW));
    assert!(fresh(u64::MAX, 0));
}

#[test]
fn verification_tells_authentic_events() {
    let keys = nostr::Keys::generate();
    let signed = nostr::EventBuilder::new(nostr::Kind::Custom(24_260), "content")
        .sign_with_keys(&keys)
        .unwrap();
    let mut event = SignedEvent {
        id: signed.id.to_bytes(),
        pubkey: signed.pubkey.to_bytes(),
        created_at: signed.created_at.as_secs(),
        kind: signed.kind.as_u16(),
        tags: vec![],
        content: signed.content.clone(),
        sig: signed.sig.serialize(),
    };
    assert_eq!(verify_coordinator_event(&event), Verification::Verified);
    event.content.push('x');
    assert!(matches!(
        verify_coordinator_event(&event),
        Verification::Refused(_)
    ));
}

#[test]
fn admission_refuses_in_order() {
    let handle = |created_at: u64,
                 verification: Verification,
                 envelope: Result<TransferCoordinatorEnvelope, String>| {
        handle_coordinator_event(&event(created_at), COMMUNITY, verification, NOW, envelope)
    };
    assert_eq!(
        handle(0, Verification::Aborted, Err("json".into())),
        refusal("error: internal error")
    );
    assert_eq!(
        handle(0, Verification::Refused("bad id".into()), Err("json".into())),
        refusal("invalid: bad id")
    );
    assert_eq!(
        handle(0, Verification::Verified, Err("json".into())),
        refusal("invalid: transfer coordinator timestamp outside ±5 minute freshness window")
    );
    assert_eq!(
        handle(NOW as u64, Verification::Verified, Err("json".into())),
        refusal("invalid: transfer coordinator payload: json")
    );
    let mut foreign = status();
    foreign.message = TransferCoordinatorMessage::OwnerRequest {
        request: TransferOwnerRequest::Status {
            agent_pubkey: "0c".repeat(32),
        },
    };
    assert_eq!(
        handle(NOW as u64, Verification::Verified, Ok(foreign)),
        refusal("invalid: agent tag does not match the request body")
    );
    assert_eq!(
        handle(NOW as u64, Verification::Verified, Ok(status())),
        HandlerStep::AwaitOwner {
            community_id: COMMUNITY,
            actor: [0x0a; 32],
            route: route(),
            envelope: status(),
        }
    );
}

#[test]
fn only_registered_owners_are_dispatched() {
    let look_up = |envelope: TransferCoordinatorEnvelope, registered: Result<bool, DbError>| {
        owner_looked_up(COMMUNITY, [0x0a; 32], route(), envelope, registered)
    };
    assert_eq!(
        look_up(start(), Ok(true)),
        HandlerStep::AwaitDispatch {
            community_id: COMMUNITY,
            actor: [0x0a; 32],
            agent: [0x0b; 32],
            deliver: true,
            message: TransferWireMessage::OwnerRequest {
                request: TransferOwnerRequest::Start {
                    transfer: Box::new(record())
                }
            },
        }
    );
    assert!(matches!(
        look_up(status(), Ok(true)),
        HandlerStep::AwaitDispatch { deliver: false, .. }
    ));
    let command = TransferCoordinatorEnvelope {
        message_id: "message-3".into(),
        message: TransferCoordinatorMessage::ExecutorCommand {
            command: TransferExecutorCommand {
                agent_pubkey: agent_hex(),
                operation_id: "operation-1".into(),
                executor_instance_id: "mac-1".into(),
                expected_revision: 0,
                expected_epoch: 1,
                command: TransferCommand::BeginDrain,
            },
        },
    };
    assert!(matches!(
        look_up(command, Ok(true)),
        HandlerStep::AwaitDispatch {
            deliver: false,
            message: TransferWireMessage::ExecutorCommand { .. },
            ..
        }
    ));
    assert_eq!(
        look_up(start(), Ok(false)),
        HandlerStep::Answered(Answer::Response {
            accepted: false,
            response: rejected_response(
                TransferWireErrorCode::Unauthorized,
                "the signed owner is not registered for this agent"
            ),
        })
    );
    assert_eq!(
        look_up(start(), Err(DbError::Other("down".into()))),
        refusal("error: internal server error")
    );
}

#[test]
fn accepted_start_requests_are_delivered() {
    let accepted = || TransferWireResponse::Accepted {
        transfer: Box::new(record()),
    };
    let answer = || Answer::Response {
        accepted: true,
        response: accepted(),
    };
    assert_eq!(
        message_dispatched(COMMUNITY, [0x0b; 32], true, Ok(accepted())),
        HandlerStep::DeliverThenAnswer {
            community_id: COMMUNITY,
            agent: [0x0b; 32],
            answer: answer(),
        }
    );
    assert_eq!(
        message_dispatched(COMMUNITY, [0x0b; 32], false, Ok(accepted())),
        HandlerStep::Answered(answer())
    );
    assert_eq!(
        message_dispatched(
            COMMUNITY,
            [0x0b; 32],
            true,
            Err(TransferCoordinatorError::ExecutorMismatch)
        ),
        HandlerStep::Answered(Answer::Response {
            accepted: false,
            response: rejected_response(
                TransferWireErrorCode::StaleState,
                "transfer state is stale; refresh status before retrying"
            ),
        })
    );
    assert_eq!(
        message_dispatched(
            COMMUNITY,
            [0x0b; 32],
            true,
            Err(TransferCoordinatorError::Database(DbError::Other("down".into())))
        ),
        refusal("error: internal server error")
    );
}

#[test]
fn responses_are_framed_for_their_event() {
    assert_eq!(
        refusal_frame("00ff", "invalid: bad id".into()),
        OkFrame {
            event_id: "00ff".into(),
            accepted: false,
            message: "invalid: bad id".into()
        }
    );
    assert_eq!(COORDINATOR_DELIVERY_SUB_ID, "agent-transfer-coordinator");
    assert_eq!(
        send_coordinator_response("00ff", true, Ok("{}".into())),
        OkFrame {
            event_id: "00ff".into(),
            accepted: true,
            message: "{}".into()
        }
    );
    assert_eq!(
        send_coordinator_response("00ff", false, Err("depth".into())),
        OkFrame {
            event_id: "00ff".into(),
            accepted: false,
            message: "error: internal server error".into()
        }
    );
}
