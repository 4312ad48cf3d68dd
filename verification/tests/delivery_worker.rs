use buzz_transfer::delivery_queue::ManagedAgentTransferDelivery;
use buzz_transfer::delivery_worker::{
    check_stored_event, deliver_one, lease_until, sent_to, try_deliver, worker_id,
    DeliveryVerdict, WorkerAction, WorkerPace,
};
use buzz_transfer::keys::CommunityId;
use buzz_transfer::transfer_store::DbError;
use nostr::{Event, EventBuilder, Keys, Kind};

const COORDINATOR_KIND: u32 = 24_260;

fn event() -> Event {
    EventBuilder::new(Kind::Custom(COORDINATOR_KIND as u16), "content")
        .sign_with_keys(&Keys::generate())
        .unwrap()
}

fn row(event: &Event) -> ManagedAgentTransferDelivery {
    ManagedAgentTransferDelivery {
        id: [1; 16],
        community_id: CommunityId::from_uuid([7; 16]),
        agent_pubkey: "0b".repeat(32),
        operation_id: "operation-1".into(),
        revision: 0,
        message_type: "start".into(),
        event_id: event.id.to_hex(),
        event: serde_json::to_string(event).unwrap(),
        state: "pending".into(),
        attempt_count: 0,
        error_message: None,
        claim_token: [2; 16],
        created_at: 0,
    }
}

#[test]
fn worker_ids_carry_a_uuid() {
    assert_eq!(
        worker_id([0x1f; 16]),
        "agent-transfer-delivery-1f1f1f1f-1f1f-1f1f-1f1f-1f1f1f1f1f1f"
    );
}

#[test]
fn leases_last_thirty_seconds() {
    assert_eq!(lease_until(5), 30_000_005);
}

#[test]
fn the_idle_delay_doubles_up_to_ten_seconds() {
    let mut pace = WorkerPace::new();
    let empty = Ok(vec![]);
    for millis in [500, 1_000, 2_000, 4_000, 8_000, 10_000, 10_000] {
        assert_eq!(pace.run(&empty), WorkerAction::Sleep { millis });
    }
    let failed = Err(DbError::Other("down".into()));
    assert_eq!(pace.run(&failed), WorkerAction::Sleep { millis: 5_000 });
    assert_eq!(pace.run(&empty), WorkerAction::Sleep { millis: 10_000 });
    let batch = Ok(vec![row(&event())]);
    assert_eq!(pace.run(&batch), WorkerAction::DeliverBatch);
    assert_eq!(pace.run(&empty), WorkerAction::Sleep { millis: 500 });
}

#[test]
fn a_stored_event_is_prepared_for_its_agent() {
    let event = event();
    let prepared = try_deliver(&row(&event), COORDINATOR_KIND).unwrap();
    assert_eq!(prepared.agent, [0x0b; 32]);
    assert_eq!(prepared.event.id, event.id.to_bytes());
    assert_eq!(prepared.event.content, "content");
    let mut upper = row(&event);
    upper.agent_pubkey = "0B".repeat(32);
    assert_eq!(try_deliver(&upper, COORDINATOR_KIND).unwrap().agent, [0x0b; 32]);
}

#[test]
fn stored_rows_are_refused_in_order() {
    let event = event();
    let mut broken = row(&event);
    broken.event = "{}".into();
    let error = try_deliver(&broken, COORDINATOR_KIND).unwrap_err();
    assert!(error.starts_with("stored event is invalid: "));

    let mut tampered = event.clone();
    tampered.content = "other".into();
    let error = try_deliver(&row(&tampered), 1).unwrap_err();
    assert!(error.starts_with("stored event signature is invalid: "));

    let mut other_id = row(&event);
    other_id.event_id = "00".repeat(32);
    assert_eq!(
        try_deliver(&other_id, 1),
        Err("stored event id does not match delivery row".to_string())
    );
    assert_eq!(
        try_deliver(&row(&event), 1),
        Err("stored event has the wrong transfer coordinator kind".to_string())
    );
    let mut bad_agent = row(&event);
    bad_agent.agent_pubkey = "0b".repeat(31);
    assert_eq!(
        try_deliver(&bad_agent, COORDINATOR_KIND),
        Err("delivery row has an invalid target agent key".to_string())
    );
    let prepared = try_deliver(&row(&event), COORDINATOR_KIND).unwrap();
    assert_eq!(
        check_stored_event(
            &prepared.event,
            Err("late".into()),
            &row(&event),
            COORDINATOR_KIND
        ),
        Err("stored event signature is invalid: late".to_string())
    );
}

#[test]
fn an_attempt_without_connections_is_deferred() {
    let row = row(&event());
    assert_eq!(sent_to(1), Ok(()));
    assert_eq!(
        deliver_one(&row, sent_to(1)),
        DeliveryVerdict::Complete {
            id: [1; 16],
            claim_token: [2; 16]
        }
    );
    assert_eq!(
        deliver_one(&row, sent_to(0)),
        DeliveryVerdict::Defer {
            id: [1; 16],
            claim_token: [2; 16],
            error: "target runtime is not connected".into()
        }
    );
}
