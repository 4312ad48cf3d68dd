use buzz_transfer::agent_transfer::{Executor, TransferCommand, TransferPhase, TransferRecord};
use buzz_transfer::signed_event::SignedEvent;
use buzz_transfer::target_bootstrap::{
    check_agent_key, check_owner_start_event, judge_key, next_session_move, subscription_id,
    validate_owner_start_event, KeyVerdict, PendingEvents, RetryPace, SessionMessage, SessionMove,
    WorkerEvent, WorkerMove,
};
use buzz_transfer::wire::{
    TransferCoordinatorEnvelope, TransferCoordinatorMessage, TransferExecutorCommand,
    TransferOwnerRequest,
};
use nostr::{Event, EventBuilder, Keys, Kind, Tag};

const COORDINATOR_KIND: u16 = 24_260;

fn record(agent: &Keys, target: &str) -> TransferRecord {
    TransferRecord::new(
        "community",
        &agent.public_key().to_hex(),
        "operation",
        Executor::new("source", "server").unwrap(),
        Executor::new(target, "computer").unwrap(),
        1,
    )
    .unwrap()
}

fn start(record: TransferRecord) -> Result<TransferCoordinatorEnvelope, String> {
    Ok(TransferCoordinatorEnvelope {
        message_id: "message".into(),
        message: TransferCoordinatorMessage::OwnerRequest {
            request: TransferOwnerRequest::Start {
                transfer: Box::new(record),
            },
        },
    })
}

fn owner_start(agent: &Keys, owner: &Keys) -> Event {
    EventBuilder::new(Kind::Custom(COORDINATOR_KIND), "{\"start\":true}")
        .tags([
            Tag::parse(["p", &owner.public_key().to_hex()]).unwrap(),
            Tag::parse(["agent", &agent.public_key().to_hex()]).unwrap(),
        ])
        .allow_self_tagging()
        .sign_with_keys(owner)
        .unwrap()
}

fn plain(event: &Event) -> SignedEvent {
    SignedEvent {
        id: event.id.to_bytes(),
        pubkey: event.pubkey.to_bytes(),
        created_at: event.created_at.as_secs(),
        kind: event.kind.as_u16(),
        tags: event.tags.iter().map(|tag| tag.as_slice().to_vec()).collect(),
        content: event.content.clone(),
        sig: event.sig.serialize(),
    }
}

#[test]
fn validates_only_preparing_transfer_for_this_instance() {
    let agent = Keys::generate();
    let owner = Keys::generate();
    let event = plain(&owner_start(&agent, &owner));
    let validate = |local: &str| {
        validate_owner_start_event(
            &event,
            start(record(&agent, "target")),
            &agent.public_key().to_hex(),
            local,
            COORDINATOR_KIND as u32,
        )
    };
    assert!(validate("target").is_ok());
    assert!(validate("other").is_err());
}

#[test]
fn rejects_non_owner_start_commands() {
    let agent = Keys::generate();
    let owner = Keys::generate();
    let mut event = owner_start(&agent, &owner);
    event.content = "{}".into();
    assert!(validate_owner_start_event(
        &plain(&event),
        Err("missing field `message_id`".into()),
        &agent.public_key().to_hex(),
        "target",
        COORDINATOR_KIND as u32,
    )
    .is_err());
}

#[test]
fn start_events_are_refused_in_order() {
    let agent = Keys::generate();
    let owner = Keys::generate();
    let agent_hex = agent.public_key().to_hex();
    let event = plain(&owner_start(&agent, &owner));
    let check = |event: &SignedEvent,
                 verification: Result<(), String>,
                 envelope: Result<TransferCoordinatorEnvelope, String>,
                 kind: u32| {
        check_owner_start_event(event, verification, envelope, &agent_hex, "target", kind)
            .unwrap_err()
    };
    let kind = COORDINATOR_KIND as u32;
    let good = || start(record(&agent, "target"));
    assert_eq!(
        check(&event, Err("bad".into()), good(), 1),
        "event kind is not the transfer coordinator kind"
    );
    assert_eq!(
        check(&event, Err("bad".into()), good(), kind),
        "signature verification failed: bad"
    );
    let owner_tag = event.tags[0].clone();
    let agent_tag = event.tags[1].clone();
    let with_tags = |tags: Vec<Vec<String>>| {
        let mut changed = plain(&owner_start(&agent, &owner));
        changed.tags = tags;
        changed
    };
    let extra = vec!["extra".to_string(), "value".to_string()];
    for tags in [
        vec![owner_tag.clone(), owner_tag.clone()],
        vec![owner_tag.clone(), agent_tag.clone(), extra],
        vec![vec!["p".to_string()], agent_tag.clone()],
    ] {
        assert_eq!(
            check(&with_tags(tags), Ok(()), good(), kind),
            "routing tags are not the canonical p/agent pair"
        );
    }
    let foreign_agent = vec!["agent".to_string(), "other".to_string()];
    for tags in [
        vec![],
        vec![agent_tag.clone()],
        vec![owner_tag.clone()],
        vec![owner_tag.clone(), foreign_agent],
    ] {
        assert_eq!(
            check(&with_tags(tags), Ok(()), good(), kind),
            "event is not addressed to this agent"
        );
    }
    let foreign_owner = vec!["p".to_string(), agent_hex.clone()];
    assert_eq!(
        check(&with_tags(vec![foreign_owner, agent_tag.clone()]), Ok(()), good(), kind),
        "owner routing tag does not match event signer"
    );
    assert_eq!(
        check(&event, Ok(()), Err("json".into()), kind),
        "transfer envelope is invalid: json"
    );
    let status = Ok(TransferCoordinatorEnvelope {
        message_id: "message".into(),
        message: TransferCoordinatorMessage::OwnerRequest {
            request: TransferOwnerRequest::Status {
                agent_pubkey: agent_hex.clone(),
            },
        },
    });
    assert_eq!(check(&event, Ok(()), status, kind), "event is not an owner-start request");
    let command = Ok(TransferCoordinatorEnvelope {
        message_id: "message".into(),
        message: TransferCoordinatorMessage::ExecutorCommand {
            command: TransferExecutorCommand {
                agent_pubkey: agent_hex.clone(),
                operation_id: "operation".into(),
                executor_instance_id: "source".into(),
                expected_revision: 0,
                expected_epoch: 1,
                command: TransferCommand::BeginDrain,
            },
        },
    });
    assert_eq!(check(&event, Ok(()), command, kind), "event is not an owner-start request");

    let mut broken = record(&agent, "target");
    broken.protocol_version = 9;
    assert_eq!(
        check(&event, Ok(()), start(broken), kind),
        "transfer record is invalid: unsupported transfer protocol version 9"
    );
    let mut foreign = record(&agent, "target");
    foreign.agent_pubkey = "other".into();
    assert_eq!(
        check(&event, Ok(()), start(foreign), kind),
        "transfer record targets another agent"
    );
    assert_eq!(
        check(&event, Ok(()), start(record(&agent, "elsewhere")), kind),
        "transfer target is another Desktop instance"
    );
    let mut draining = record(&agent, "target");
    draining.apply(0, 1, TransferCommand::BeginDrain).unwrap();
    assert_eq!(draining.phase, TransferPhase::Draining);
    assert_eq!(
        check(&event, Ok(()), start(draining), kind),
        "owner-start transfer is not in preparing phase"
    );
}

#[test]
fn subscription_ids_carry_the_agent() {
    assert_eq!(subscription_id("ab"), "managed-agent-transfer-bootstrap-ab");
}

#[test]
fn saved_keys_are_held_against_their_agent() {
    let keys = Keys::generate();
    let secret = keys.secret_key().to_secret_hex();
    let pubkey = keys.public_key().to_hex();
    assert_eq!(check_agent_key(&secret, &pubkey), KeyVerdict::Usable);
    assert_eq!(check_agent_key(&format!(" \n{secret}\t"), &pubkey), KeyVerdict::Usable);
    assert_eq!(
        check_agent_key(&secret, &Keys::generate().public_key().to_hex()),
        KeyVerdict::Mismatch
    );
    assert!(matches!(
        check_agent_key("not a key", &pubkey),
        KeyVerdict::Invalid { .. }
    ));
    assert_eq!(
        judge_key(Err("bad".into()), &pubkey),
        KeyVerdict::Invalid { error: "bad".into() }
    );
    assert_eq!(judge_key(Ok([0xab; 32]), &"ab".repeat(32)), KeyVerdict::Usable);
    assert_eq!(judge_key(Ok([0xab; 32]), &"AB".repeat(32)), KeyVerdict::Mismatch);
}

#[test]
fn retries_slow_down_to_thirty_seconds() {
    let mut pace = RetryPace::new();
    for secs in [1, 2, 4, 8, 16, 30, 30] {
        assert_eq!(
            pace.next_move(WorkerEvent::ConnectFailed),
            WorkerMove::Wait { secs }
        );
    }
    assert_eq!(pace.next_move(WorkerEvent::Connected), WorkerMove::Subscribe);
    assert_eq!(
        pace.next_move(WorkerEvent::SubscribeFailed),
        WorkerMove::Wait { secs: 1 }
    );
    assert_eq!(
        pace.next_move(WorkerEvent::SubscribeFailed),
        WorkerMove::Wait { secs: 1 }
    );
    assert_eq!(
        pace.next_move(WorkerEvent::SessionEnded),
        WorkerMove::Wait { secs: 1 }
    );
    assert_eq!(
        pace.next_move(WorkerEvent::KeyRejected),
        WorkerMove::Wait { secs: 2 }
    );
    assert_eq!(pace.next_move(WorkerEvent::AgentMissing), WorkerMove::Stop);
    assert_eq!(pace.next_move(WorkerEvent::Cancelled), WorkerMove::Stop);
}

#[test]
fn sessions_end_with_their_own_subscription() {
    let own = subscription_id("ab");
    let closed = |id: &str| SessionMessage::Closed {
        subscription_id: id.to_string(),
    };
    assert_eq!(next_session_move(&SessionMessage::Cancelled, &own), SessionMove::Stop);
    assert_eq!(next_session_move(&SessionMessage::Event, &own), SessionMove::HandleEvent);
    assert_eq!(next_session_move(&closed(&own), &own), SessionMove::End);
    assert_eq!(next_session_move(&closed("other"), &own), SessionMove::Continue);
    assert_eq!(next_session_move(&SessionMessage::Other, &own), SessionMove::Continue);
    assert_eq!(next_session_move(&SessionMessage::Failed, &own), SessionMove::End);
}

#[test]
fn pending_events_are_kept_once_per_runtime() {
    let mut pending = PendingEvents::new();
    pending.or_insert("agent", "relay", "first".into());
    pending.or_insert("agent", "relay", "second".into());
    pending.or_insert("agent", "other", "third".into());
    assert_eq!(pending.get("agent", "relay"), Some("first"));
    assert_eq!(pending.get("agent", "other"), Some("third"));
    assert_eq!(pending.get("other", "relay"), None);
}
