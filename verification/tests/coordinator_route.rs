use buzz_transfer::agent_transfer::TransferCommand;
use buzz_transfer::coordinator_route::{coordinator_route, strict_coordinator_tags};
use buzz_transfer::signed_event::SignedEvent;
use buzz_transfer::wire::{
    TransferCoordinatorEnvelope, TransferCoordinatorMessage, TransferExecutorCommand,
    TransferOwnerRequest,
};

const COORDINATOR_KIND: u16 = 24_260;

fn plain(event: &nostr::Event) -> SignedEvent {
    SignedEvent {
        id: event.id.to_bytes(),
        pubkey: event.pubkey.to_bytes(),
        created_at: event.created_at.as_secs(),
        kind: event.kind.as_u16(),
        tags: event.tags.iter().map(|tag| tag.as_slice().to_vec()).collect(),
        content: event.content.clone(),
        sig: event.sig.serialize(),
    }
}

fn status(agent_pubkey: String) -> TransferCoordinatorEnvelope {
    TransferCoordinatorEnvelope {
        message_id: "message-1".into(),
        message: TransferCoordinatorMessage::OwnerRequest {
            request: TransferOwnerRequest::Status { agent_pubkey },
        },
    }
}

fn command(agent_pubkey: String) -> TransferCoordinatorEnvelope {
    TransferCoordinatorEnvelope {
        message_id: "message-1".into(),
        message: TransferCoordinatorMessage::ExecutorCommand {
            command: TransferExecutorCommand {
                agent_pubkey,
                operation_id: "operation-1".into(),
                executor_instance_id: "server-1".into(),
                expected_revision: 0,
                expected_epoch: 1,
                command: TransferCommand::BeginDrain,
            },
        },
    }
}

fn unsigned(pubkey: [u8; 32], tags: &[&[&str]]) -> SignedEvent {
    SignedEvent {
        id: [0; 32],
        pubkey,
        created_at: 0,
        kind: COORDINATOR_KIND,
        tags: tags
            .iter()
            .map(|tag| tag.iter().map(|value| value.to_string()).collect())
            .collect(),
        content: String::new(),
        sig: [0; 64],
    }
}

#[test]
fn coordinator_route_requires_matching_owner_and_agent_tags() {
    let owner = nostr::Keys::generate();
    let agent = nostr::Keys::generate();
    let envelope = status(agent.public_key().to_hex());
    let event = nostr::EventBuilder::new(nostr::Kind::Custom(COORDINATOR_KIND), "content")
        .tags([
            nostr::Tag::parse(["p", &owner.public_key().to_hex()]).expect("owner tag"),
            nostr::Tag::parse(["agent", &agent.public_key().to_hex()]).expect("agent tag"),
        ])
        .allow_self_tagging()
        .sign_with_keys(&owner)
        .expect("sign event");

    let route = coordinator_route(&plain(&event), &envelope).expect("valid route");
    assert_eq!(route.owner, owner.public_key().to_bytes());
    assert_eq!(route.agent, agent.public_key().to_bytes());
}

#[test]
fn coordinator_route_rejects_extra_tags_and_wrong_signer() {
    let owner = nostr::Keys::generate();
    let agent = nostr::Keys::generate();
    let stranger = nostr::Keys::generate();
    let envelope = status(agent.public_key().to_hex());
    let event = nostr::EventBuilder::new(nostr::Kind::Custom(COORDINATOR_KIND), "content")
        .tags([
            nostr::Tag::parse(["p", &owner.public_key().to_hex()]).expect("owner tag"),
            nostr::Tag::parse(["agent", &agent.public_key().to_hex()]).expect("agent tag"),
            nostr::Tag::parse(["unexpected", "value"]).expect("extra tag"),
        ])
        .allow_self_tagging()
        .sign_with_keys(&stranger)
        .expect("sign event");

    let error = coordinator_route(&plain(&event), &envelope).expect_err("route must reject");
    assert!(error.contains("unsupported tag"));
}

#[test]
fn tag_faults_are_told_apart() {
    let owner = "0a".repeat(32);
    let agent = "0b".repeat(32);
    let upper = "0B".repeat(32);
    let refuse = |tags: &[&[&str]]| strict_coordinator_tags(&unsigned([0; 32], tags)).unwrap_err();
    assert_eq!(
        refuse(&[&["p"]]),
        "transfer coordinator tags must contain exactly two values"
    );
    assert_eq!(
        refuse(&[&["p", &owner, "relay"]]),
        "transfer coordinator tags must contain exactly two values"
    );
    assert_eq!(
        refuse(&[&["e", &owner]]),
        "transfer coordinator contains an unsupported tag"
    );
    assert_eq!(
        refuse(&[&["p", &owner], &["p", &agent]]),
        "transfer coordinator has duplicate `p` tag"
    );
    assert_eq!(
        refuse(&[&["agent", &agent], &["agent", &agent]]),
        "transfer coordinator has duplicate `agent` tag"
    );
    assert_eq!(
        refuse(&[&["p", "short"]]),
        "transfer coordinator `p` tag is not a pubkey"
    );
    assert_eq!(
        refuse(&[&["p", &owner], &["agent", &upper]]),
        "transfer coordinator `agent` tag must use lowercase canonical hex"
    );
    assert_eq!(
        refuse(&[&["agent", &agent]]),
        "transfer coordinator is missing the `p` tag"
    );
    assert_eq!(
        refuse(&[&["p", &owner]]),
        "transfer coordinator is missing the `agent` tag"
    );
    assert_eq!(refuse(&[]), "transfer coordinator is missing the `p` tag");
}

#[test]
fn the_pair_is_accepted_in_either_order() {
    let owner = "0a".repeat(32);
    let agent = "0b".repeat(32);
    let pairs: [[&[&str]; 2]; 2] = [
        [&["p", &owner], &["agent", &agent]],
        [&["agent", &agent], &["p", &owner]],
    ];
    for tags in pairs {
        let route = strict_coordinator_tags(&unsigned([0; 32], &tags)).unwrap();
        assert_eq!(route.owner, [0x0a; 32]);
        assert_eq!(route.agent, [0x0b; 32]);
    }
}

#[test]
fn messages_are_signed_by_their_sender() {
    let owner = "0a".repeat(32);
    let agent = "0b".repeat(32);
    let tags: [&[&str]; 2] = [&["p", &owner], &["agent", &agent]];
    let by_owner = unsigned([0x0a; 32], &tags);
    let by_agent = unsigned([0x0b; 32], &tags);
    assert!(coordinator_route(&by_owner, &status(agent.clone())).is_ok());
    assert_eq!(
        coordinator_route(&by_agent, &status(agent.clone())),
        Err("owner request must be signed by the tagged owner".to_string())
    );
    assert!(coordinator_route(&by_agent, &command(agent.clone())).is_ok());
    assert_eq!(
        coordinator_route(&by_owner, &command(agent.clone())),
        Err("executor command must be signed by the managed agent".to_string())
    );
    assert_eq!(
        coordinator_route(&by_owner, &status(owner.clone())),
        Err("agent tag does not match the request body".to_string())
    );
}
