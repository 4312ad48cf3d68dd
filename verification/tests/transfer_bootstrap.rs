use buzz_transfer::agent_transfer::{Executor, TransferCommand, TransferRecord};
use buzz_transfer::signed_event::SignedEvent;
use buzz_transfer::transfer_bootstrap::{check_bootstrap_event, parse_event};
use buzz_transfer::wire::{
    TransferCoordinatorEnvelope, TransferCoordinatorMessage, TransferExecutorCommand,
    TransferOwnerRequest,
};
use nostr::{Event, EventBuilder, Keys, Kind, Tag};

const COORDINATOR_KIND: u16 = 24_260;

fn envelope(agent_pubkey: &str) -> Result<TransferCoordinatorEnvelope, String> {
    let record = TransferRecord::new(
        "community",
        agent_pubkey,
        "operation",
        Executor::new("source", "server").unwrap(),
        Executor::new("target", "computer").unwrap(),
        1,
    )
    .unwrap();
    Ok(TransferCoordinatorEnvelope {
        message_id: "message".into(),
        message: TransferCoordinatorMessage::OwnerRequest {
            request: TransferOwnerRequest::Start {
                transfer: Box::new(record),
            },
        },
    })
}

fn command(agent_pubkey: &str) -> Result<TransferCoordinatorEnvelope, String> {
    Ok(TransferCoordinatorEnvelope {
        message_id: "message".into(),
        message: TransferCoordinatorMessage::ExecutorCommand {
            command: TransferExecutorCommand {
                agent_pubkey: agent_pubkey.to_string(),
                operation_id: "operation".into(),
                executor_instance_id: "source".into(),
                expected_revision: 0,
                expected_epoch: 1,
                command: TransferCommand::BeginDrain,
            },
        },
    })
}

fn signed_by(signer: &Keys, tags: [[&str; 2]; 2]) -> Event {
    EventBuilder::new(Kind::Custom(COORDINATOR_KIND), "{\"start\":true}")
        .tags(tags.map(|tag| Tag::parse(tag).unwrap()))
        .allow_self_tagging()
        .sign_with_keys(signer)
        .unwrap()
}

fn event(agent: &Keys, owner: &Keys) -> Event {
    signed_by(
        owner,
        [
            ["p", &owner.public_key().to_hex()],
            ["agent", &agent.public_key().to_hex()],
        ],
    )
}

fn parse(
    event: &Event,
    envelope: Result<TransferCoordinatorEnvelope, String>,
    agent_pubkey_hex: &str,
) -> Result<SignedEvent, String> {
    parse_event(
        &serde_json::to_string(event).unwrap(),
        envelope,
        agent_pubkey_hex,
        COORDINATOR_KIND as u32,
    )
}

fn plain(event: &Event) -> SignedEvent {
    SignedEvent {
        id: event.id.to_bytes(),
        pubkey: event.pubkey.to_bytes(),
        created_at: event.created_at.as_secs(),
        kind: event.kind.as_u16(),
        tags: event.tags.iter().map(|tag| tag.as_slice().to_vec()).collect(),
        content: event.content.clone(),
        sig: event.sig.serialize(),
    }
}

fn tag(values: &[&str]) -> Vec<String> {
    values.iter().map(|value| value.to_string()).collect()
}

fn misrouted(text: &str) -> Result<SignedEvent, String> {
    Err(format!("transfer bootstrap event has an invalid route: {text}"))
}

#[test]
fn accepts_signed_event_for_target_agent() {
    let agent = Keys::generate();
    let owner = Keys::generate();
    let agent_hex = agent.public_key().to_hex();
    let signed = event(&agent, &owner);
    let parsed = parse(&signed, envelope(&agent_hex), &agent_hex);
    assert!(parsed.is_ok());
    assert_eq!(parsed, Ok(plain(&signed)));
}

#[test]
fn rejects_event_for_another_agent() {
    let agent = Keys::generate();
    let owner = Keys::generate();
    let other = Keys::generate();
    let parsed = parse(
        &event(&agent, &owner),
        envelope(&agent.public_key().to_hex()),
        &other.public_key().to_hex(),
    );
    assert!(parsed.is_err());
    assert_eq!(
        parsed,
        Err("transfer bootstrap event is not addressed to this agent".to_string())
    );
}

#[test]
fn rejects_extra_routing_tag() {
    let agent = Keys::generate();
    let owner = Keys::generate();
    let agent_hex = agent.public_key().to_hex();
    let mut signed = event(&agent, &owner);
    signed.tags.push(Tag::parse(["extra", "value"]).unwrap());
    let parsed = parse(&signed, envelope(&agent_hex), &agent_hex);
    assert!(parsed.is_err());
}

#[test]
fn rejects_text_that_is_no_event() {
    let error = parse_event("{", Err("json".into()), "agent", COORDINATOR_KIND as u32).unwrap_err();
    assert!(error.starts_with("transfer bootstrap event is invalid JSON: "));
    assert!(error.len() > "transfer bootstrap event is invalid JSON: ".len());
}

#[test]
fn rejects_another_kind() {
    let agent = Keys::generate();
    let owner = Keys::generate();
    let agent_hex = agent.public_key().to_hex();
    assert_eq!(
        parse_event(
            &serde_json::to_string(&event(&agent, &owner)).unwrap(),
            envelope(&agent_hex),
            &agent_hex,
            1,
        ),
        Err("transfer bootstrap event has the wrong kind".to_string())
    );
}

#[test]
fn rejects_tampered_content() {
    let agent = Keys::generate();
    let owner = Keys::generate();
    let agent_hex = agent.public_key().to_hex();
    let mut signed = event(&agent, &owner);
    signed.content = "{\"start\":false}".into();
    let error = parse(&signed, envelope(&agent_hex), &agent_hex).unwrap_err();
    assert!(error.starts_with("transfer bootstrap event signature is invalid: "));
}

#[test]
fn routing_tags_are_checked_one_by_one() {
    let owner = Keys::generate();
    let base = event(&Keys::generate(), &owner);
    let agent = "0b".repeat(32);
    let signer = owner.public_key().to_hex();
    let check = |tags: Vec<Vec<String>>| {
        let mut event = plain(&base);
        event.tags = tags;
        check_bootstrap_event(&event, Ok(()), envelope(&agent), &agent, COORDINATOR_KIND as u32)
    };
    let invalid = Err("transfer bootstrap event has invalid routing tags".to_string());
    let unaddressed = Err("transfer bootstrap event is not addressed to this agent".to_string());
    let agent_tag = || tag(&["agent", &agent]);
    let owner_tag = || tag(&["p", &signer]);
    assert_eq!(check(vec![owner_tag(), agent_tag()]), Ok(()));
    assert_eq!(check(vec![agent_tag(), owner_tag()]), Ok(()));
    assert_eq!(check(vec![agent_tag(), agent_tag()]), invalid);
    assert_eq!(check(vec![tag(&["agent", &agent, "more"]), owner_tag()]), invalid);
    assert_eq!(check(vec![agent_tag(), tag(&["p"])]), invalid);
    assert_eq!(check(vec![tag(&[])]), invalid);
    assert_eq!(check(vec![owner_tag(), owner_tag()]), unaddressed);
    assert_eq!(check(vec![agent_tag()]), unaddressed);
    assert_eq!(check(vec![tag(&["agent", "other"]), owner_tag()]), unaddressed);
    assert_eq!(check(vec![]), unaddressed);
    assert_eq!(check(vec![agent_tag(), owner_tag(), owner_tag()]), unaddressed);
    let mut event = plain(&base);
    event.tags = vec![];
    assert_eq!(
        check_bootstrap_event(
            &event,
            Err("bad".into()),
            envelope(&agent),
            &agent,
            COORDINATOR_KIND as u32
        ),
        Err("transfer bootstrap event signature is invalid: bad".to_string())
    );
}

#[test]
fn an_owner_request_is_signed_by_the_tagged_owner() {
    let agent_hex = Keys::generate().public_key().to_hex();
    let owner = Keys::generate();
    let foreign = Keys::generate().public_key().to_hex();
    let upper = "AB".repeat(32);
    let cases = [
        (foreign.as_str(), "owner request must be signed by the tagged owner"),
        (agent_hex.as_str(), "owner request must be signed by the tagged owner"),
        ("no-key", "transfer coordinator `p` tag is not a pubkey"),
        ("", "transfer coordinator `p` tag is not a pubkey"),
        (upper.as_str(), "transfer coordinator `p` tag must use lowercase canonical hex"),
    ];
    for (value, text) in cases {
        for tags in [
            [["p", value], ["agent", &agent_hex]],
            [["agent", &agent_hex], ["p", value]],
        ] {
            let signed = signed_by(&owner, tags);
            assert_eq!(parse(&signed, envelope(&agent_hex), &agent_hex), misrouted(text));
        }
    }
}

#[test]
fn a_command_is_signed_by_the_agent() {
    let agent = Keys::generate();
    let owner = Keys::generate();
    let agent_hex = agent.public_key().to_hex();
    let owner_hex = owner.public_key().to_hex();
    let by_agent = signed_by(&agent, [["p", &owner_hex], ["agent", &agent_hex]]);
    assert_eq!(
        parse(&by_agent, command(&agent_hex), &agent_hex),
        Ok(plain(&by_agent))
    );
    assert_eq!(
        parse(&event(&agent, &owner), command(&agent_hex), &agent_hex),
        misrouted("executor command must be signed by the managed agent")
    );
}

#[test]
fn the_message_decodes_and_speaks_of_the_agent() {
    let agent = Keys::generate();
    let owner = Keys::generate();
    let agent_hex = agent.public_key().to_hex();
    let signed = event(&agent, &owner);
    assert_eq!(
        parse(&signed, Err("json".into()), &agent_hex),
        Err("transfer bootstrap event has an invalid payload: json".to_string())
    );
    assert_eq!(
        parse(&signed, envelope(&"0c".repeat(32)), &agent_hex),
        misrouted("agent tag does not match the request body")
    );
}
