use buzz_transfer::delivery_queue::{
    backoff, candidate, claim, claim_batch, claim_held, enqueue, fail, mark_delivered, pick_batch,
    row_to_delivery, DeliveryColumns, DeliverySchedule, DeliveryState, EnqueueStep, NewDelivery,
    TRANSFER_DELIVERY_MAX_ATTEMPTS,
};
use buzz_transfer::keys::CommunityId;
use buzz_transfer::transfer_store::DbError;

const COMMUNITY: CommunityId = CommunityId { uuid: [7; 16] };
const SECOND: i64 = 1_000_000;

fn row(created_at: i64) -> DeliverySchedule {
    DeliverySchedule {
        state: DeliveryState::Pending,
        attempt_count: 0,
        error_message: None,
        retry_after: None,
        held_by: None,
        lease_expires_at: None,
        claim_token: None,
        delivered_at: None,
        created_at,
        updated_at: created_at,
    }
}

fn columns() -> DeliveryColumns {
    DeliveryColumns {
        id: [1; 16],
        community_id: [7; 16],
        agent_pubkey: "agent".into(),
        operation_id: "operation-1".into(),
        revision: 4,
        message_type: "start".into(),
        event_id: "event".into(),
        event: "{}".into(),
        state: "pending".into(),
        attempt_count: 2,
        error_message: Some("offline".into()),
        claim_token: Some([3; 16]),
        created_at: 5,
    }
}

fn enqueue_at(revision: u64, reply: Option<Result<u64, DbError>>) -> EnqueueStep {
    enqueue(COMMUNITY, "agent", "operation-1", revision, "start", "event", "{}", reply)
}

#[test]
fn an_event_is_enqueued_once() {
    assert_eq!(
        enqueue_at(i64::MAX as u64, None),
        EnqueueStep::Insert(NewDelivery {
            community_id: COMMUNITY,
            agent_pubkey: "agent".into(),
            operation_id: "operation-1".into(),
            revision: i64::MAX,
            message_type: "start".into(),
            event_id: "event".into(),
            event: "{}".into(),
        })
    );
    assert_eq!(enqueue_at(1, Some(Ok(1))), EnqueueStep::Done(Ok(true)));
    assert_eq!(enqueue_at(1, Some(Ok(0))), EnqueueStep::Done(Ok(false)));
    assert_eq!(
        enqueue_at(1, Some(Err(DbError::Other("down".into())))),
        EnqueueStep::Done(Err(DbError::Other("down".into())))
    );
    assert_eq!(
        enqueue_at(i64::MAX as u64 + 1, None),
        EnqueueStep::Done(Err(DbError::InvalidData(
            "transfer delivery revision exceeds PostgreSQL bigint".into()
        )))
    );
}

#[test]
fn claimed_rows_become_deliveries() {
    let delivery = row_to_delivery(columns()).unwrap();
    assert_eq!(delivery.id, [1; 16]);
    assert_eq!(delivery.community_id, COMMUNITY);
    assert_eq!(delivery.revision, 4);
    assert_eq!(delivery.attempt_count, 2);
    assert_eq!(delivery.error_message, Some("offline".to_string()));
    assert_eq!(delivery.claim_token, [3; 16]);

    let mut negative = columns();
    negative.revision = -1;
    assert_eq!(
        row_to_delivery(negative),
        Err(DbError::InvalidData(
            "stored transfer delivery revision cannot be negative".into()
        ))
    );
    let mut unclaimed = columns();
    unclaimed.claim_token = None;
    assert_eq!(
        row_to_delivery(unclaimed),
        Err(DbError::InvalidData(
            "claimed transfer delivery has no claim token".into()
        ))
    );
}

#[test]
fn candidates_are_pending_unleased_and_due() {
    assert!(candidate(&row(0), 10));
    let mut leased = row(0);
    leased.lease_expires_at = Some(10);
    assert!(!candidate(&leased, 10));
    assert!(candidate(&leased, 11));
    let mut later = row(0);
    later.retry_after = Some(10);
    assert!(!candidate(&later, 9));
    assert!(candidate(&later, 10));
    for state in [DeliveryState::Delivered, DeliveryState::Failed] {
        let mut finished = row(0);
        finished.state = state;
        assert!(!candidate(&finished, 10));
    }
}

#[test]
fn batches_follow_retry_time_and_age() {
    let mut retried = row(1);
    retried.retry_after = Some(20);
    let mut earlier = row(9);
    earlier.retry_after = Some(10);
    let mut waiting = row(0);
    waiting.retry_after = Some(1_000);
    let rows = vec![retried, row(8), earlier, waiting, row(3)];
    assert_eq!(pick_batch(&rows, 100, 16), Ok(vec![4, 1, 2, 0]));
    assert_eq!(pick_batch(&rows, 100, 2), Ok(vec![4, 1]));
    assert_eq!(pick_batch(&rows, 100, 0), Ok(vec![]));
    assert_eq!(
        pick_batch(&rows, 100, -1),
        Err(DbError::Other("LIMIT must not be negative".into()))
    );
}

#[test]
fn a_claimed_batch_is_leased_until_its_end() {
    let mut rows = vec![row(2), row(1), row(3)];
    let tokens = vec![[1; 16], [2; 16]];
    assert_eq!(
        claim_batch(&mut rows, "worker-a", 130, 2, &tokens, 100),
        Ok(vec![1, 0])
    );
    assert_eq!(rows[1].claim_token, Some([1; 16]));
    assert_eq!(rows[0].claim_token, Some([2; 16]));
    assert_eq!(rows[0].held_by, Some("worker-a".to_string()));
    assert_eq!(rows[0].lease_expires_at, Some(130));
    assert_eq!(rows[0].updated_at, 100);
    assert_eq!(rows[2], row(3));
    assert_eq!(
        claim_batch(&mut rows, "worker-b", 140, 2, &tokens, 110),
        Ok(vec![2])
    );
    assert_eq!(
        claim_batch(&mut rows, "worker-b", 140, 2, &tokens, 130),
        Ok(vec![])
    );
    assert_eq!(
        claim_batch(&mut rows, "worker-b", 200, 2, &tokens, 131),
        Ok(vec![1, 0])
    );
    assert!(claim_batch(&mut rows, "worker-b", 200, -1, &tokens, 131).is_err());
}

#[test]
fn a_lost_lease_is_fenced() {
    let mut row = row(0);
    assert!(claim(&mut row, "worker-a", 130, [1; 16], 100));
    assert!(!claim(&mut row, "worker-b", 160, [2; 16], 130));
    assert!(claim(&mut row, "worker-b", 160, [2; 16], 131));
    assert!(!mark_delivered(&mut row, [1; 16], 140));
    assert!(!fail(&mut row, [1; 16], "late", 140));
    assert!(mark_delivered(&mut row, [2; 16], 140));
    assert_eq!(row.state, DeliveryState::Delivered);
    assert_eq!(row.delivered_at, Some(140));
    assert_eq!(row.held_by, None);
    assert_eq!(row.lease_expires_at, None);
    assert_eq!(row.claim_token, None);
    assert!(!mark_delivered(&mut row, [2; 16], 150));
    assert!(!claim(&mut row, "worker-b", 200, [3; 16], 190));
}

#[test]
fn backoff_doubles_up_to_five_minutes() {
    let delays: Vec<u64> = (0..12).map(backoff).collect();
    assert_eq!(delays, vec![1, 2, 4, 8, 16, 32, 64, 128, 256, 300, 300, 300]);
    assert_eq!(backoff(u32::MAX), 300);
}

#[test]
fn the_tenth_failure_gives_up() {
    let mut row = row(0);
    let mut now = 0;
    for attempt in 1..=TRANSFER_DELIVERY_MAX_ATTEMPTS {
        assert!(candidate(&row, now));
        assert!(claim(&mut row, "worker", now + 30 * SECOND, [9; 16], now));
        assert!(fail(&mut row, [9; 16], "offline", now));
        assert_eq!(row.attempt_count, attempt);
        assert_eq!(row.error_message, Some("offline".to_string()));
        assert_eq!(row.claim_token, None);
        if attempt < TRANSFER_DELIVERY_MAX_ATTEMPTS {
            let due = now + (1i64 << (attempt - 1)) * SECOND;
            assert_eq!(row.state, DeliveryState::Pending);
            assert_eq!(row.retry_after, Some(due));
            assert!(!candidate(&row, due - 1));
            now = due;
        }
    }
    assert_eq!(row.state, DeliveryState::Failed);
    assert_eq!(row.retry_after, None);
    assert!(!candidate(&row, i64::MAX));
}

#[test]
fn a_completed_delivery_answers_no_more() {
    let mut row = row(0);
    row.attempt_count = i32::MAX;
    assert!(claim(&mut row, "worker", 130, [1; 16], 100));
    assert!(claim_held(&row, &[1; 16]));
    assert!(!claim_held(&row, &[2; 16]));
    assert!(!fail(&mut row, [2; 16], "late", i64::MAX));
    assert!(mark_delivered(&mut row, [1; 16], 110));
    assert!(!claim_held(&row, &[1; 16]));
    assert!(!fail(&mut row, [1; 16], "late", i64::MAX));
    assert!(!mark_delivered(&mut row, [1; 16], 120));
    assert_eq!(row.state, DeliveryState::Delivered);
    assert_eq!(row.delivered_at, Some(110));
    assert_eq!(row.updated_at, 110);
    assert_eq!(row.error_message, None);
}
