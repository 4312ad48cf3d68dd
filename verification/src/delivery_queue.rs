//! Durable queue of coordinator events that have to reach a target runtime.
//!
//! The queue only transports signed events; the transfer record stays the
//! authority on the lifecycle. A row is claimed under a lease and a fencing
//! token, and is then delivered, retried later, or given up. Times are
//! microseconds since the Unix epoch.

use vstd::arithmetic::power2::{
    lemma2_to64, lemma_pow2_pos, lemma_pow2_strictly_increases, lemma_pow2_unfold, pow2,
};
use vstd::prelude::*;

use crate::agent_transfer::string_option_view;
use crate::keys::{same_bytes, CommunityId};
use crate::transfer_store::{DbError, DbErrorView};

verus! {

/// Number of failed attempts after which a delivery is given up.
pub const TRANSFER_DELIVERY_MAX_ATTEMPTS: i32 = 10;

/// Longest delay between two attempts, in seconds.
pub const MAX_BACKOFF_SECS: u64 = 300;

/// Microseconds in a second.
pub const MICROS_PER_SEC: i64 = 1_000_000;

/// A claimed row of the delivery queue.
#[derive(Debug, PartialEq, Eq)]
pub struct ManagedAgentTransferDelivery {
    /// Id of the row.
    pub id: [u8; 16],
    /// Community that contains the target agent.
    pub community_id: CommunityId,
    /// Key of the target agent in lowercase hexadecimal notation.
    pub agent_pubkey: String,
    /// Transfer operation.
    pub operation_id: String,
    /// Revision of the state machine that the event stands for.
    pub revision: u64,
    /// Class of the delivery, which keeps a start request apart from a command
    /// at the same revision.
    pub message_type: String,
    /// Id of the signed event in lowercase hexadecimal notation.
    pub event_id: String,
    /// JSON text of the signed event.
    pub event: String,
    /// State of the row: `pending`, `delivered` or `failed`.
    pub state: String,
    /// Number of failed attempts.
    pub attempt_count: i32,
    /// Last error, if any.
    pub error_message: Option<String>,
    /// Fencing token of the claim.
    pub claim_token: [u8; 16],
    /// Time of insertion.
    pub created_at: i64,
}

impl Clone for ManagedAgentTransferDelivery {
    fn clone(&self) -> (res: Self)
        ensures
            res == *self,
    {
        let error_message: Option<String> = match &self.error_message {
            Some(text) => Some(text.clone()),
            None => None,
        };
        ManagedAgentTransferDelivery {
            id: self.id,
            community_id: self.community_id,
            agent_pubkey: self.agent_pubkey.clone(),
            operation_id: self.operation_id.clone(),
            revision: self.revision,
            message_type: self.message_type.clone(),
            event_id: self.event_id.clone(),
            event: self.event.clone(),
            state: self.state.clone(),
            attempt_count: self.attempt_count,
            error_message,
            claim_token: self.claim_token,
            created_at: self.created_at,
        }
    }
}

/// The columns of a claimed row as the database returns them.
#[derive(Debug, PartialEq, Eq)]
pub struct DeliveryColumns {
    pub id: [u8; 16],
    pub community_id: [u8; 16],
    pub agent_pubkey: String,
    pub operation_id: String,
    pub revision: i64,
    pub message_type: String,
    pub event_id: String,
    pub event: String,
    pub state: String,
    pub attempt_count: i32,
    pub error_message: Option<String>,
    pub claim_token: Option<[u8; 16]>,
    pub created_at: i64,
}

/// The revision as the database column holds it.
fn queue_revision(revision: u64) -> (res: Result<i64, DbError>)
    ensures
        match res {
            Ok(column) => column == revision,
            Err(error) => revision > i64::MAX && error@ == DbErrorView::InvalidData(
                "transfer delivery revision exceeds PostgreSQL bigint"@,
            ),
        },
{
    if revision > i64::MAX as u64 {
        return Err(
            DbError::InvalidData("transfer delivery revision exceeds PostgreSQL bigint".to_owned()),
        );
    }
    Ok(revision as i64)
}

/// A row that is to be queued.
#[derive(Debug, PartialEq, Eq)]
pub struct NewDelivery {
    /// Community that contains the target agent.
    pub community_id: CommunityId,
    /// Key of the target agent in lowercase hexadecimal notation.
    pub agent_pubkey: String,
    /// Transfer operation.
    pub operation_id: String,
    /// Revision of the state machine, as the column holds it.
    pub revision: i64,
    /// Class of the delivery.
    pub message_type: String,
    /// Id of the signed event in lowercase hexadecimal notation.
    pub event_id: String,
    /// JSON text of the signed event.
    pub event: String,
}

/// The columns that no two rows of the queue share.
pub struct DeliveryKey {
    pub community_id: CommunityId,
    pub agent_pubkey: Seq<char>,
    pub operation_id: Seq<char>,
    pub revision: i64,
    pub message_type: Seq<char>,
}

/// The content of a [`NewDelivery`].
pub struct NewDeliveryView {
    pub key: DeliveryKey,
    pub event_id: Seq<char>,
    pub event: Seq<char>,
}

impl View for NewDelivery {
    type V = NewDeliveryView;

    open spec fn view(&self) -> NewDeliveryView {
        NewDeliveryView {
            key: DeliveryKey {
                community_id: self.community_id,
                agent_pubkey: self.agent_pubkey@,
                operation_id: self.operation_id@,
                revision: self.revision,
                message_type: self.message_type@,
            },
            event_id: self.event_id@,
            event: self.event@,
        }
    }
}

/// What to do next while an event is enqueued.
#[derive(Debug, PartialEq, Eq)]
pub enum EnqueueStep {
    /// Insert the row unless a row of the same community, agent, operation,
    /// revision and class is queued.
    Insert(NewDelivery),
    /// The answer: whether a row is new.
    Done(Result<bool, DbError>),
}

/// The content of an [`EnqueueStep`].
pub enum EnqueueView {
    Insert(NewDeliveryView),
    Done(Result<bool, DbErrorView>),
}

impl View for EnqueueStep {
    type V = EnqueueView;

    open spec fn view(&self) -> EnqueueView {
        match *self {
            EnqueueStep::Insert(row) => EnqueueView::Insert(row@),
            EnqueueStep::Done(Ok(inserted)) => EnqueueView::Done(Ok(inserted)),
            EnqueueStep::Done(Err(error)) => EnqueueView::Done(Err(error@)),
        }
    }
}

/// The view of the number of rows that a statement changed.
pub open spec fn count_view(reply: Option<Result<u64, DbError>>) -> Option<
    Result<u64, DbErrorView>,
> {
    match reply {
        None => None,
        Some(Ok(count)) => Some(Ok(count)),
        Some(Err(error)) => Some(Err(error@)),
    }
}

/// The row for an event of a revision that fits its column.
pub open spec fn queue_row(
    community_id: CommunityId,
    agent_pubkey: Seq<char>,
    operation_id: Seq<char>,
    revision: u64,
    message_type: Seq<char>,
    event_id: Seq<char>,
    event: Seq<char>,
) -> NewDeliveryView {
    NewDeliveryView {
        key: DeliveryKey {
            community_id,
            agent_pubkey,
            operation_id,
            revision: revision as i64,
            message_type,
        },
        event_id,
        event,
    }
}

/// The next step of enqueueing the row of an event, given its revision.
pub open spec fn enqueueing(
    row: NewDeliveryView,
    revision: u64,
    reply: Option<Result<u64, DbErrorView>>,
) -> EnqueueView {
    if revision > i64::MAX {
        EnqueueView::Done(
            Err(DbErrorView::InvalidData("transfer delivery revision exceeds PostgreSQL bigint"@)),
        )
    } else {
        match reply {
            None => EnqueueView::Insert(row),
            Some(Ok(count)) => EnqueueView::Done(Ok(count > 0)),
            Some(Err(error)) => EnqueueView::Done(Err(error)),
        }
    }
}

/// Enqueues one signed event for an operation revision and delivery class.
///
/// `reply` is the number of rows that the insertion made, `None` until it has
/// been performed. The answer is `true` for a new row; a retry of a queued
/// event adds nothing.
pub fn enqueue(
    community_id: CommunityId,
    agent_pubkey: &str,
    operation_id: &str,
    revision: u64,
    message_type: &str,
    event_id: &str,
    event: &str,
    reply: Option<Result<u64, DbError>>,
) -> (res: EnqueueStep)
    ensures
        res@ == enqueueing(
            queue_row(
                community_id,
                agent_pubkey@,
                operation_id@,
                revision,
                message_type@,
                event_id@,
                event@,
            ),
            revision,
            count_view(reply),
        ),
{
    let revision = match queue_revision(revision) {
        Ok(revision) => revision,
        Err(error) => {
            return EnqueueStep::Done(Err(error));
        },
    };
    match reply {
        None => EnqueueStep::Insert(
            NewDelivery {
                community_id,
                agent_pubkey: agent_pubkey.to_owned(),
                operation_id: operation_id.to_owned(),
                revision,
                message_type: message_type.to_owned(),
                event_id: event_id.to_owned(),
                event: event.to_owned(),
            },
        ),
        Some(Ok(count)) => EnqueueStep::Done(Ok(count > 0)),
        Some(Err(error)) => EnqueueStep::Done(Err(error)),
    }
}

/// The queued rows after an insertion that does nothing on a conflict, and the
/// number of rows that it made.
pub open spec fn insertion(
    queue: Map<DeliveryKey, NewDeliveryView>,
    row: NewDeliveryView,
) -> (Map<DeliveryKey, NewDeliveryView>, u64) {
    if queue.contains_key(row.key) {
        (queue, 0)
    } else {
        (queue.insert(row.key, row), 1)
    }
}

/// An event is queued once: the first attempt adds its row and answers `true`,
/// and every later attempt for the same community, agent, operation, revision
/// and class, whatever its event, leaves the queue as it is and answers
/// `false`. Rows of another revision or class stay apart.
pub proof fn law_retries_queue_nothing(
    queue: Map<DeliveryKey, NewDeliveryView>,
    community_id: CommunityId,
    agent_pubkey: Seq<char>,
    operation_id: Seq<char>,
    revision: u64,
    message_type: Seq<char>,
    event_id: Seq<char>,
    event: Seq<char>,
    retry_event_id: Seq<char>,
    retry_event: Seq<char>,
    other_revision: u64,
    other_type: Seq<char>,
)
    requires
        revision <= i64::MAX,
        other_revision <= i64::MAX,
        revision != other_revision || message_type != other_type,
    ensures
        ({
            let row = queue_row(
                community_id,
                agent_pubkey,
                operation_id,
                revision,
                message_type,
                event_id,
                event,
            );
            let retry = queue_row(
                community_id,
                agent_pubkey,
                operation_id,
                revision,
                message_type,
                retry_event_id,
                retry_event,
            );
            let other = queue_row(
                community_id,
                agent_pubkey,
                operation_id,
                other_revision,
                other_type,
                retry_event_id,
                retry_event,
            );
            let (after, count) = insertion(queue, row);
            let (again, more) = insertion(after, retry);
            let first_answer = enqueueing(row, revision, Some(Ok(count)));
            let later_answer = enqueueing(retry, revision, Some(Ok(more)));
            &&& after.contains_key(row.key)
            &&& first_answer == EnqueueView::Done(Ok(!queue.contains_key(row.key)))
            &&& !queue.contains_key(row.key) ==> after[row.key] == row
            &&& again == after
            &&& later_answer == EnqueueView::Done(Ok(false))
            &&& insertion(after, other).1 == insertion(queue, other).1
        }),
{
}

/// The refusal of the columns of a claimed row.
pub open spec fn columns_fault(columns: DeliveryColumns) -> Option<DbErrorView> {
    if columns.revision < 0 {
        Some(
            DbErrorView::InvalidData("stored transfer delivery revision cannot be negative"@),
        )
    } else if columns.claim_token is None {
        Some(DbErrorView::InvalidData("claimed transfer delivery has no claim token"@))
    } else {
        None
    }
}

/// Makes a claimed delivery out of the columns of its row.
pub fn row_to_delivery(columns: DeliveryColumns) -> (res: Result<
    ManagedAgentTransferDelivery,
    DbError,
>)
    ensures
        match columns_fault(columns) {
            Some(fault) => res matches Err(error) && error@ == fault,
            None => res == Ok::<ManagedAgentTransferDelivery, DbError>(
                ManagedAgentTransferDelivery {
                    id: columns.id,
                    community_id: CommunityId { uuid: columns.community_id },
                    agent_pubkey: columns.agent_pubkey,
                    operation_id: columns.operation_id,
                    revision: columns.revision as u64,
                    message_type: columns.message_type,
                    event_id: columns.event_id,
                    event: columns.event,
                    state: columns.state,
                    attempt_count: columns.attempt_count,
                    error_message: columns.error_message,
                    claim_token: columns.claim_token->0,
                    created_at: columns.created_at,
                },
            ),
        },
{
    if columns.revision < 0 {
        return Err(
            DbError::InvalidData("stored transfer delivery revision cannot be negative".to_owned()),
        );
    }
    let claim_token = match columns.claim_token {
        Some(token) => token,
        None => {
            return Err(
                DbError::InvalidData("claimed transfer delivery has no claim token".to_owned()),
            );
        },
    };
    Ok(
        ManagedAgentTransferDelivery {
            id: columns.id,
            community_id: CommunityId::from_uuid(columns.community_id),
            agent_pubkey: columns.agent_pubkey,
            operation_id: columns.operation_id,
            revision: columns.revision as u64,
            message_type: columns.message_type,
            event_id: columns.event_id,
            event: columns.event,
            state: columns.state,
            attempt_count: columns.attempt_count,
            error_message: columns.error_message,
            claim_token,
            created_at: columns.created_at,
        },
    )
}

/// State of a queued delivery.
#[derive(Debug, Clone, Copy, PartialEq, Eq, Structural)]
pub enum DeliveryState {
    /// Waits for an attempt.
    Pending,
    /// Has reached a live runtime.
    Delivered,
    /// Was given up.
    Failed,
}

/// The columns of a row that decide when it is attempted and by whom.
#[derive(Debug, PartialEq, Eq)]
pub struct DeliverySchedule {
    /// State of the row.
    pub state: DeliveryState,
    /// Number of failed attempts.
    pub attempt_count: i32,
    /// Last error, if any.
    pub error_message: Option<String>,
    /// Earliest time of the next attempt, if it is restricted.
    pub retry_after: Option<i64>,
    /// Worker that holds the claim, if any.
    pub held_by: Option<String>,
    /// End of the lease, if there is one.
    pub lease_expires_at: Option<i64>,
    /// Fencing token of the claim, if there is one.
    pub claim_token: Option<[u8; 16]>,
    /// Time of delivery, if it was delivered.
    pub delivered_at: Option<i64>,
    /// Time of insertion.
    pub created_at: i64,
    /// Time of the last change.
    pub updated_at: i64,
}

/// The content of a [`DeliverySchedule`].
pub struct ScheduleView {
    pub state: DeliveryState,
    pub attempt_count: i32,
    pub error_message: Option<Seq<char>>,
    pub retry_after: Option<i64>,
    pub held_by: Option<Seq<char>>,
    pub lease_expires_at: Option<i64>,
    pub claim_token: Option<Seq<u8>>,
    pub delivered_at: Option<i64>,
    pub created_at: i64,
    pub updated_at: i64,
}

/// The view of an optional token.
pub open spec fn token_option(token: Option<[u8; 16]>) -> Option<Seq<u8>> {
    match token {
        Some(token) => Some(token@),
        None => None,
    }
}

impl View for DeliverySchedule {
    type V = ScheduleView;

    open spec fn view(&self) -> ScheduleView {
        ScheduleView {
            state: self.state,
            attempt_count: self.attempt_count,
            error_message: string_option_view(self.error_message),
            retry_after: self.retry_after,
            held_by: string_option_view(self.held_by),
            lease_expires_at: self.lease_expires_at,
            claim_token: token_option(self.claim_token),
            delivered_at: self.delivered_at,
            created_at: self.created_at,
            updated_at: self.updated_at,
        }
    }
}

/// No lease protects the row at the time `now`.
pub open spec fn lease_over(row: ScheduleView, now: i64) -> bool {
    row.lease_expires_at is None || row.lease_expires_at->0 < now
}

/// The row waits, is not leased, and its next attempt is due.
pub open spec fn is_candidate(row: ScheduleView, now: i64) -> bool {
    &&& row.state is Pending
    &&& lease_over(row, now)
    &&& row.retry_after is None || row.retry_after->0 <= now
}

/// Whether the row may be picked for an attempt at the time `now`.
pub fn candidate(row: &DeliverySchedule, now: i64) -> (res: bool)
    ensures
        res == is_candidate(row@, now),
{
    let lease_over = match row.lease_expires_at {
        Some(end) => end < now,
        None => true,
    };
    let due = match row.retry_after {
        Some(due) => due <= now,
        None => true,
    };
    row.state == DeliveryState::Pending && lease_over && due
}

/// The order in which due rows are attempted: those without a retry time first,
/// then by retry time, and rows of the same retry time by age.
pub open spec fn not_after(a: ScheduleView, b: ScheduleView) -> bool {
    match (a.retry_after, b.retry_after) {
        (None, None) => a.created_at <= b.created_at,
        (None, Some(_)) => true,
        (Some(_), None) => false,
        (Some(x), Some(y)) => x < y || (x == y && a.created_at <= b.created_at),
    }
}

fn comes_not_after(a: &DeliverySchedule, b: &DeliverySchedule) -> (res: bool)
    ensures
        res == not_after(a@, b@),
{
    match (a.retry_after, b.retry_after) {
        (None, None) => a.created_at <= b.created_at,
        (None, Some(_)) => true,
        (Some(_), None) => false,
        (Some(x), Some(y)) => x < y || (x == y && a.created_at <= b.created_at),
    }
}

/// `picked` lists a batch of rows by their index: candidates only, none twice,
/// in order, at most `limit` of them, and nothing that should have come before
/// them is left out.
pub open spec fn is_batch(
    rows: Seq<ScheduleView>,
    now: i64,
    limit: nat,
    picked: Seq<usize>,
) -> bool {
    &&& picked.len() <= limit
    &&& forall|i: int|
        0 <= i < picked.len() ==> #[trigger] picked[i] < rows.len() && is_candidate(
            rows[picked[i] as int],
            now,
        )
    &&& forall|i: int, j: int| 0 <= i < j < picked.len() ==> picked[i] != picked[j]
    &&& forall|i: int, j: int|
        0 <= i < j < picked.len() ==> not_after(
            rows[#[trigger] picked[i] as int],
            rows[#[trigger] picked[j] as int],
        )
    &&& forall|k: usize|
        k < rows.len() && is_candidate(#[trigger] rows[k as int], now) && !picked.contains(k)
            ==> picked.len() == limit && forall|i: int|
            0 <= i < picked.len() ==> not_after(rows[#[trigger] picked[i] as int], rows[k as int])
}

fn listed(picked: &Vec<usize>, k: usize) -> (res: bool)
    ensures
        res == picked@.contains(k),
{
    let mut i: usize = 0;
    while i < picked.len()
        invariant
            i <= picked.len(),
            forall|j: int| 0 <= j < i ==> picked@[j] != k,
        decreases picked.len() - i,
    {
        if picked[i] == k {
            return true;
        }
        i = i + 1;
    }
    false
}

/// The first candidate, in attempt order, that is not yet picked.
fn next_candidate(rows: &Vec<DeliverySchedule>, now: i64, picked: &Vec<usize>) -> (res: Option<
    usize,
>)
    ensures
        match res {
            Some(best) => {
                &&& best < rows.len()
                &&& is_candidate(rows@[best as int]@, now)
                &&& !picked@.contains(best)
                &&& forall|k: usize|
                    k < rows.len() && is_candidate(#[trigger] rows@[k as int]@, now)
                        && !picked@.contains(k) ==> not_after(
                        rows@[best as int]@,
                        rows@[k as int]@,
                    )
            },
            None => forall|k: usize|
                k < rows.len() && is_candidate(#[trigger] rows@[k as int]@, now)
                    ==> picked@.contains(k),
        },
{
    let mut best: Option<usize> = None;
    let mut n: usize = 0;
    while n < rows.len()
        invariant
            n <= rows.len(),
            match best {
                Some(best) => {
                    &&& best < n
                    &&& is_candidate(rows@[best as int]@, now)
                    &&& !picked@.contains(best)
                    &&& forall|k: usize|
                        k < n && is_candidate(#[trigger] rows@[k as int]@, now)
                            && !picked@.contains(k) ==> not_after(
                            rows@[best as int]@,
                            rows@[k as int]@,
                        )
                },
                None => forall|k: usize|
                    k < n && is_candidate(#[trigger] rows@[k as int]@, now) ==> picked@.contains(k),
            },
        decreases rows.len() - n,
    {
        if candidate(&rows[n], now) && !listed(picked, n) {
            let better = match best {
                Some(best) => !comes_not_after(&rows[best], &rows[n]),
                None => true,
            };
            if better {
                best = Some(n);
            }
        }
        n = n + 1;
    }
    best
}

/// The views of a list of rows.
pub open spec fn schedule_views(rows: Seq<DeliverySchedule>) -> Seq<ScheduleView> {
    rows.map_values(|row: DeliverySchedule| row@)
}

/// Picks the rows to claim at the time `now`, at most `batch_size` of them, by
/// their index. A negative size is refused, as the database refuses it.
pub fn pick_batch(rows: &Vec<DeliverySchedule>, now: i64, batch_size: i64) -> (res: Result<
    Vec<usize>,
    DbError,
>)
    ensures
        match res {
            Ok(picked) => batch_size >= 0 && is_batch(
                schedule_views(rows@),
                now,
                batch_size as nat,
                picked@,
            ),
            Err(error) => batch_size < 0 && error@ == DbErrorView::Other(
                "LIMIT must not be negative"@,
            ),
        },
{
    if batch_size < 0 {
        return Err(DbError::Other("LIMIT must not be negative".to_owned()));
    }
    let batch_size: u64 = batch_size as u64;
    let ghost views = schedule_views(rows@);
    let mut picked: Vec<usize> = Vec::new();
    let mut more = true;
    while more && (picked.len() as u64) < batch_size
        invariant
            views == schedule_views(rows@),
            picked.len() <= batch_size,
            forall|i: int|
                0 <= i < picked@.len() ==> #[trigger] picked@[i] < views.len() && is_candidate(
                    views[picked@[i] as int],
                    now,
                ),
            forall|i: int, j: int| 0 <= i < j < picked@.len() ==> picked@[i] != picked@[j],
            forall|i: int, j: int|
                0 <= i < j < picked@.len() ==> not_after(
                    views[#[trigger] picked@[i] as int],
                    views[#[trigger] picked@[j] as int],
                ),
            forall|k: usize|
                k < views.len() && is_candidate(#[trigger] views[k as int], now)
                    && !picked@.contains(k) ==> more && forall|i: int|
                    0 <= i < picked@.len() ==> not_after(
                        views[#[trigger] picked@[i] as int],
                        views[k as int],
                    ),
        decreases batch_size - picked.len() + if more { 1int } else { 0int },
    {
        let ghost before = picked@;
        match next_candidate(rows, now, &picked) {
            Some(best) => {
                assert(views[best as int] == rows@[best as int]@);
                picked.push(best);
                assert forall|k: usize|
                    k < views.len() && is_candidate(#[trigger] views[k as int], now)
                        && !picked@.contains(k) implies forall|i: int|
                    0 <= i < picked@.len() ==> not_after(
                        views[#[trigger] picked@[i] as int],
                        views[k as int],
                    ) by {
                    assert(views[k as int] == rows@[k as int]@);
                    assert(!before.contains(k)) by {
                        if before.contains(k) {
                            let j = choose|j: int| 0 <= j < before.len() && before[j] == k;
                            assert(picked@[j] == k);
                        }
                    }
                }
            },
            None => {
                assert forall|k: usize|
                    k < views.len() && is_candidate(
                        #[trigger] views[k as int],
                        now,
                    ) implies picked@.contains(k) by {
                    assert(views[k as int] == rows@[k as int]@);
                }
                more = false;
            },
        }
    }
    Ok(picked)
}

/// The row after the worker `worker` has claimed it until `lease_until`.
pub open spec fn claimed(
    row: ScheduleView,
    worker: Seq<char>,
    lease_until: i64,
    token: Seq<u8>,
    now: i64,
) -> ScheduleView {
    ScheduleView {
        held_by: Some(worker),
        lease_expires_at: Some(lease_until),
        claim_token: Some(token),
        updated_at: now,
        ..row
    }
}

/// The row is pending and claimed under the token.
pub open spec fn holds_claim(row: ScheduleView, token: Seq<u8>) -> bool {
    row.state is Pending && row.claim_token == Some(token)
}

/// The row without a claim.
pub open spec fn released(row: ScheduleView, now: i64) -> ScheduleView {
    ScheduleView {
        held_by: None,
        lease_expires_at: None,
        claim_token: None,
        updated_at: now,
        ..row
    }
}

/// The row after its delivery.
pub open spec fn delivered(row: ScheduleView, now: i64) -> ScheduleView {
    ScheduleView {
        state: DeliveryState::Delivered,
        delivered_at: Some(now),
        ..released(row, now)
    }
}

/// Seconds until the next attempt after `attempts` earlier failures: two to
/// that power, but at most five minutes.
pub open spec fn backoff_secs(attempts: nat) -> nat {
    if pow2(attempts) <= MAX_BACKOFF_SECS {
        pow2(attempts)
    } else {
        MAX_BACKOFF_SECS as nat
    }
}

/// The row after a failed attempt.
pub open spec fn failed(row: ScheduleView, error: Seq<char>, now: i64) -> ScheduleView {
    let attempts = row.attempt_count + 1;
    let given_up = attempts >= TRANSFER_DELIVERY_MAX_ATTEMPTS;
    ScheduleView {
        attempt_count: attempts as i32,
        error_message: Some(error),
        state: if given_up {
            DeliveryState::Failed
        } else {
            DeliveryState::Pending
        },
        retry_after: if given_up {
            None
        } else {
            Some((now + backoff_secs(row.attempt_count as nat) * MICROS_PER_SEC) as i64)
        },
        ..released(row, now)
    }
}

/// The answer to a completion under a token, and the row after it.
pub open spec fn completion(row: ScheduleView, token: Seq<u8>, now: i64) -> (bool, ScheduleView) {
    if holds_claim(row, token) {
        (true, delivered(row, now))
    } else {
        (false, row)
    }
}

/// The answer to a failure under a token, and the row after it.
pub open spec fn failure(row: ScheduleView, token: Seq<u8>, error: Seq<char>, now: i64) -> (
    bool,
    ScheduleView,
) {
    if holds_claim(row, token) {
        (true, failed(row, error, now))
    } else {
        (false, row)
    }
}

/// What holds of every row of the queue: the number of attempts is in bounds
/// and below the maximum while the row is pending, and only a pending row is
/// claimed, with a holder, a lease and a token or with none of them.
pub open spec fn schedule_fits(row: ScheduleView) -> bool {
    &&& 0 <= row.attempt_count <= TRANSFER_DELIVERY_MAX_ATTEMPTS
    &&& row.state is Pending ==> row.attempt_count < TRANSFER_DELIVERY_MAX_ATTEMPTS
    &&& row.claim_token is Some ==> row.state is Pending
    &&& row.claim_token is Some <==> row.held_by is Some
    &&& row.claim_token is Some <==> row.lease_expires_at is Some
}

/// Two to the power of `attempts`, but at most five minutes, in seconds.
pub fn backoff(attempts: u32) -> (res: u64)
    ensures
        res == backoff_secs(attempts as nat),
{
    let mut delay: u64 = 1;
    let mut n: u32 = 0;
    proof {
        lemma2_to64();
    }
    while n < attempts
        invariant
            n <= attempts,
            delay == pow2(n as nat),
            delay <= MAX_BACKOFF_SECS,
        decreases attempts - n,
    {
        proof {
            lemma_pow2_unfold((n + 1) as nat);
        }
        if 2 * delay > MAX_BACKOFF_SECS {
            proof {
                if n + 1 < attempts {
                    lemma_pow2_strictly_increases((n + 1) as nat, attempts as nat);
                }
            }
            return MAX_BACKOFF_SECS;
        }
        delay = 2 * delay;
        n = n + 1;
    }
    delay
}

/// Whether the row is pending and claimed under the token.
pub fn claim_held(row: &DeliverySchedule, token: &[u8; 16]) -> (res: bool)
    ensures
        res == holds_claim(row@, token@),
{
    let held = match &row.claim_token {
        Some(current) => same_bytes(current.as_slice(), token.as_slice()),
        None => false,
    };
    row.state == DeliveryState::Pending && held
}

/// Claims a row under a fresh token, unless it is leased or finished by now.
pub fn claim(
    row: &mut DeliverySchedule,
    worker_id: &str,
    lease_until: i64,
    claim_token: [u8; 16],
    now: i64,
) -> (res: bool)
    ensures
        res == (old(row)@.state is Pending && lease_over(old(row)@, now)),
        res ==> final(row)@ == claimed(old(row)@, worker_id@, lease_until, claim_token@, now),
        !res ==> *final(row) == *old(row),
{
    let lease_over = match row.lease_expires_at {
        Some(end) => end < now,
        None => true,
    };
    if row.state != DeliveryState::Pending || !lease_over {
        return false;
    }
    row.held_by = Some(worker_id.to_owned());
    row.lease_expires_at = Some(lease_until);
    row.claim_token = Some(claim_token);
    row.updated_at = now;
    true
}

proof fn lemma_distinct_indices(picked: Seq<usize>, n: nat)
    requires
        forall|i: int| 0 <= i < picked.len() ==> #[trigger] picked[i] < n,
        forall|i: int, j: int| 0 <= i < j < picked.len() ==> picked[i] != picked[j],
    ensures
        picked.len() <= n,
{
    assert(picked.no_duplicates());
    picked.unique_seq_to_set();
    let indices = picked.to_set().map(|k: usize| k as int);
    vstd::set_lib::lemma_int_range(0, n as int);
    vstd::set_lib::lemma_map_size(picked.to_set(), indices, |k: usize| k as int);
    vstd::set_lib::lemma_len_subset(indices, vstd::set_lib::set_int_range(0, n as int));
}

/// The rows after each picked row was claimed under its own token.
pub open spec fn batch_claimed(
    before: Seq<ScheduleView>,
    after: Seq<ScheduleView>,
    picked: Seq<usize>,
    worker: Seq<char>,
    lease_until: i64,
    tokens: Seq<[u8; 16]>,
    now: i64,
) -> bool {
    &&& after.len() == before.len()
    &&& forall|i: int|
        0 <= i < picked.len() ==> after[#[trigger] picked[i] as int] == claimed(
            before[picked[i] as int],
            worker,
            lease_until,
            tokens[i]@,
            now,
        )
    &&& forall|k: usize|
        k < before.len() && !picked.contains(k) ==> #[trigger] after[k as int] == before[k as int]
}

/// Claims the rows that are due at the time `now`, at most `batch_size` of them
/// and each under its own token, and lists them by their index.
///
/// There has to be a fresh token for each row that may be claimed.
#[verifier::loop_isolation(false)]
pub fn claim_batch(
    rows: &mut Vec<DeliverySchedule>,
    worker_id: &str,
    lease_until: i64,
    batch_size: i64,
    tokens: &Vec<[u8; 16]>,
    now: i64,
) -> (res: Result<Vec<usize>, DbError>)
    requires
        tokens.len() >= batch_size || tokens.len() >= old(rows).len(),
    ensures
        match res {
            Ok(picked) => {
                &&& batch_size >= 0
                &&& is_batch(schedule_views(old(rows)@), now, batch_size as nat, picked@)
                &&& batch_claimed(
                    schedule_views(old(rows)@),
                    schedule_views(final(rows)@),
                    picked@,
                    worker_id@,
                    lease_until,
                    tokens@,
                    now,
                )
            },
            Err(error) => {
                &&& batch_size < 0
                &&& error@ == DbErrorView::Other("LIMIT must not be negative"@)
                &&& final(rows)@ == old(rows)@
            },
        },
{
    let picked = match pick_batch(rows, now, batch_size) {
        Ok(picked) => picked,
        Err(error) => {
            return Err(error);
        },
    };
    let ghost before = schedule_views(rows@);
    proof {
        lemma_distinct_indices(picked@, rows@.len());
    }
    let mut i: usize = 0;
    while i < picked.len()
        invariant
            i <= picked.len(),
            rows@.len() == before.len(),
            forall|j: int|
                0 <= j < i ==> schedule_views(rows@)[#[trigger] picked@[j] as int] == claimed(
                    before[picked@[j] as int],
                    worker_id@,
                    lease_until,
                    tokens@[j]@,
                    now,
                ),
            forall|k: usize|
                k < before.len() && !picked@.take(i as int).contains(k)
                    ==> #[trigger] schedule_views(rows@)[k as int] == before[k as int],
        decreases picked.len() - i,
    {
        let at = picked[i];
        let ghost earlier = rows@;
        assert(picked@[i as int] == at && at < before.len());
        assert(!picked@.take(i as int).contains(at));
        assert(schedule_views(earlier)[at as int] == before[at as int]);
        let done = claim(&mut rows[at], worker_id, lease_until, tokens[i], now);
        assert(done);
        assert forall|k: usize|
            k < before.len() && !picked@.take(i + 1).contains(
                k,
            ) implies #[trigger] schedule_views(rows@)[k as int] == before[k as int] by {
            assert(picked@.take(i + 1)[i as int] == at);
            assert(k != at);
            assert(!picked@.take(i as int).contains(k)) by {
                if picked@.take(i as int).contains(k) {
                    let j = choose|j: int| 0 <= j < i && picked@.take(i as int)[j] == k;
                    assert(picked@.take(i + 1)[j] == k);
                }
            }
            assert(schedule_views(earlier)[k as int] == before[k as int]);
        }
        assert forall|j: int| 0 <= j < i implies schedule_views(
            rows@,
        )[#[trigger] picked@[j] as int] == claimed(
            before[picked@[j] as int],
            worker_id@,
            lease_until,
            tokens@[j]@,
            now,
        ) by {
            assert(picked@[j] != picked@[i as int]);
            assert(schedule_views(earlier)[picked@[j] as int] == claimed(
                before[picked@[j] as int],
                worker_id@,
                lease_until,
                tokens@[j]@,
                now,
            ));
        }
        i = i + 1;
    }
    assert(picked@.take(picked@.len() as int) =~= picked@);
    Ok(picked)
}

fn release(row: &mut DeliverySchedule, now: i64)
    ensures
        final(row)@ == released(old(row)@, now),
{
    row.held_by = None;
    row.lease_expires_at = None;
    row.claim_token = None;
    row.updated_at = now;
}

/// Completes a claimed delivery, fenced by its token.
pub fn mark_delivered(row: &mut DeliverySchedule, claim_token: [u8; 16], now: i64) -> (res: bool)
    ensures
        (res, final(row)@) == completion(old(row)@, claim_token@, now),
        !res ==> *final(row) == *old(row),
{
    if !claim_held(row, &claim_token) {
        return false;
    }
    row.state = DeliveryState::Delivered;
    row.delivered_at = Some(now);
    release(row, now);
    true
}

/// Records a failed delivery, fenced by its token: the next attempt comes after
/// a bounded exponential delay, and the last one gives the delivery up.
pub fn fail(row: &mut DeliverySchedule, claim_token: [u8; 16], error: &str, now: i64) -> (res: bool)
    requires
        holds_claim(old(row)@, claim_token@) ==> 0 <= old(row)@.attempt_count < i32::MAX && now
            <= i64::MAX - MAX_BACKOFF_SECS * MICROS_PER_SEC,
    ensures
        (res, final(row)@) == failure(old(row)@, claim_token@, error@, now),
        !res ==> *final(row) == *old(row),
{
    if !claim_held(row, &claim_token) {
        return false;
    }
    let attempts = row.attempt_count;
    if attempts + 1 >= TRANSFER_DELIVERY_MAX_ATTEMPTS {
        row.state = DeliveryState::Failed;
        row.retry_after = None;
    } else {
        let delay: i64 = backoff(attempts as u32) as i64;
        row.retry_after = Some(now + delay * MICROS_PER_SEC);
    }
    row.attempt_count = attempts + 1;
    row.error_message = Some(error.to_owned());
    release(row, now);
    true
}

/// The row that an insertion makes.
pub open spec fn inserted(now: i64) -> ScheduleView {
    ScheduleView {
        state: DeliveryState::Pending,
        attempt_count: 0,
        error_message: None,
        retry_after: None,
        held_by: None,
        lease_expires_at: None,
        claim_token: None,
        delivered_at: None,
        created_at: now,
        updated_at: now,
    }
}

/// A new row meets the invariant, and every operation on a row keeps it.
pub proof fn law_queue_rows_keep_their_invariant(
    row: ScheduleView,
    worker: Seq<char>,
    lease_until: i64,
    token: Seq<u8>,
    error: Seq<char>,
    now: i64,
)
    ensures
        schedule_fits(inserted(now)),
        is_candidate(inserted(now), now),
        schedule_fits(row) && row.state is Pending ==> schedule_fits(
            claimed(row, worker, lease_until, token, now),
        ),
        schedule_fits(row) && holds_claim(row, token) ==> schedule_fits(delivered(row, now))
            && schedule_fits(failed(row, error, now)),
{
}

/// A worker whose lease was taken over can neither complete nor fail the
/// delivery: its token no longer holds the claim.
pub proof fn law_lost_leases_are_fenced(
    row: ScheduleView,
    worker: Seq<char>,
    lease_until: i64,
    token: Seq<u8>,
    stale: Seq<u8>,
    now: i64,
)
    requires
        row.state is Pending,
        stale != token,
    ensures
        holds_claim(claimed(row, worker, lease_until, token, now), token),
        !holds_claim(claimed(row, worker, lease_until, token, now), stale),
{
}

/// A completed or given-up delivery is never attempted again, and no token
/// completes or fails it.
pub proof fn law_finished_deliveries_are_final(
    row: ScheduleView,
    error: Seq<char>,
    token: Seq<u8>,
    done_at: i64,
    now: i64,
)
    ensures
        !is_candidate(delivered(row, done_at), now),
        !holds_claim(delivered(row, done_at), token),
        !holds_claim(failed(row, error, done_at), token),
        failed(row, error, done_at).state is Failed ==> !is_candidate(
            failed(row, error, done_at),
            now,
        ),
{
}

/// A completion under the token of a pending row marks the row as delivered and
/// clears its claim; any later completion or failure, under this token or
/// another one, is then answered with `false` and changes nothing. A completion
/// that is answered with `false` changes nothing either.
pub proof fn law_completed_deliveries_answer_no_more(
    row: ScheduleView,
    token: Seq<u8>,
    done_at: i64,
    later_token: Seq<u8>,
    error: Seq<char>,
    now: i64,
)
    ensures
        ({
            let (completed, after) = completion(row, token, done_at);
            &&& completed <==> row.state is Pending && row.claim_token == Some(token)
            &&& !completed ==> after == row
            &&& completed ==> {
                &&& after.state is Delivered
                &&& after.held_by is None
                &&& after.lease_expires_at is None
                &&& after.claim_token is None
                &&& completion(after, later_token, now) == (false, after)
                &&& failure(after, later_token, error, now) == (false, after)
            }
        }),
{
}

/// A leased row is no candidate before its lease is over, so no second worker
/// attempts it meanwhile.
pub proof fn law_leased_rows_are_left_alone(
    row: ScheduleView,
    worker: Seq<char>,
    lease_until: i64,
    token: Seq<u8>,
    claimed_at: i64,
    now: i64,
)
    requires
        now <= lease_until,
    ensures
        !is_candidate(claimed(row, worker, lease_until, token, claimed_at), now),
        !lease_over(claimed(row, worker, lease_until, token, claimed_at), now),
{
}

/// While the lease of a claimed batch lasts, another claim takes none of its
/// rows.
pub proof fn law_claimed_rows_are_not_claimed_again(
    before: Seq<ScheduleView>,
    after: Seq<ScheduleView>,
    picked: Seq<usize>,
    worker: Seq<char>,
    lease_until: i64,
    tokens: Seq<[u8; 16]>,
    claimed_at: i64,
    limit: nat,
    now: i64,
    later: Seq<usize>,
)
    requires
        batch_claimed(before, after, picked, worker, lease_until, tokens, claimed_at),
        is_batch(after, now, limit, later),
        now <= lease_until,
    ensures
        forall|i: int, j: int|
            0 <= i < picked.len() && 0 <= j < later.len() ==> #[trigger] picked[i]
                != #[trigger] later[j],
{
    assert forall|i: int, j: int|
        0 <= i < picked.len() && 0 <= j < later.len() implies #[trigger] picked[i]
        != #[trigger] later[j] by {
        assert(is_candidate(after[later[j] as int], now));
    }
}

/// The delay between two attempts is at least a second, at most five minutes,
/// and never shorter after more failures.
pub proof fn law_backoff_is_bounded_and_grows(fewer: nat, more: nat)
    requires
        fewer <= more,
    ensures
        1 <= backoff_secs(fewer) <= backoff_secs(more) <= MAX_BACKOFF_SECS,
{
    lemma_pow2_pos(fewer);
    if fewer < more {
        lemma_pow2_strictly_increases(fewer, more);
    }
}

/// A failed attempt that does not give the delivery up makes the row a
/// candidate again exactly when the delay is over.
pub proof fn law_failed_attempts_are_retried_after_the_delay(
    row: ScheduleView,
    error: Seq<char>,
    failed_at: i64,
    now: i64,
)
    requires
        schedule_fits(row),
        row.attempt_count + 1 < TRANSFER_DELIVERY_MAX_ATTEMPTS,
        failed_at <= i64::MAX - MAX_BACKOFF_SECS * MICROS_PER_SEC,
    ensures
        is_candidate(failed(row, error, failed_at), now) <==> failed_at + backoff_secs(
            row.attempt_count as nat,
        ) * MICROS_PER_SEC <= now,
{
    law_backoff_is_bounded_and_grows(row.attempt_count as nat, row.attempt_count as nat);
}

/// The row after one failure for each error, at the given times.
pub open spec fn failures(row: ScheduleView, errors: Seq<Seq<char>>, times: Seq<i64>) -> ScheduleView
    decreases errors.len(),
{
    if errors.len() == 0 {
        row
    } else {
        failed(failures(row, errors.drop_last(), times), errors.last(), times[errors.len() - 1])
    }
}

/// A delivery is given up at its last allowed failure and not before.
pub proof fn law_attempts_are_bounded(inserted_at: i64, errors: Seq<Seq<char>>, times: Seq<i64>)
    requires
        errors.len() <= TRANSFER_DELIVERY_MAX_ATTEMPTS,
    ensures
        failures(inserted(inserted_at), errors, times).attempt_count == errors.len(),
        failures(inserted(inserted_at), errors, times).state is Failed <==> errors.len()
            == TRANSFER_DELIVERY_MAX_ATTEMPTS,
        schedule_fits(failures(inserted(inserted_at), errors, times)),
    decreases errors.len(),
{
    if errors.len() > 0 {
        law_attempts_are_bounded(inserted_at, errors.drop_last(), times);
    }
}

/// An event is inserted before it is answered for: whatever its revision, as
/// long as it fits its column, the first step is to insert the row of exactly
/// the given community, agent, operation, revision, class and event. On a queue
/// without such a row the whole enqueueing leaves that row in the queue, keeps
/// all others, and answers `true`. A larger revision is refused unasked.
pub proof fn law_events_are_inserted_before_they_are_answered(
    queue: Map<DeliveryKey, NewDeliveryView>,
    community_id: CommunityId,
    agent_pubkey: Seq<char>,
    operation_id: Seq<char>,
    revision: u64,
    message_type: Seq<char>,
    event_id: Seq<char>,
    event: Seq<char>,
    reply: Option<Result<u64, DbErrorView>>,
    count: u64,
    error: DbErrorView,
)
    ensures
        ({
            let row = queue_row(
                community_id,
                agent_pubkey,
                operation_id,
                revision,
                message_type,
                event_id,
                event,
            );
            let first = enqueueing(row, revision, None);
            &&& revision <= i64::MAX ==> {
                &&& first is Insert
                &&& first->Insert_0.key.community_id == community_id
                &&& first->Insert_0.key.agent_pubkey == agent_pubkey
                &&& first->Insert_0.key.operation_id == operation_id
                &&& first->Insert_0.key.revision == revision
                &&& first->Insert_0.key.message_type == message_type
                &&& first->Insert_0.event_id == event_id
                &&& first->Insert_0.event == event
                &&& !queue.contains_key(row.key) ==> {
                    let (after, inserted) = insertion(queue, first->Insert_0);
                    &&& after == queue.insert(row.key, row)
                    &&& enqueueing(row, revision, Some(Ok(inserted))) == EnqueueView::Done(Ok(true))
                }
                &&& enqueueing(row, revision, Some(Ok(count))) == EnqueueView::Done(Ok(count != 0))
                &&& enqueueing(row, revision, Some(Err(error))) == EnqueueView::Done(Err(error))
            }
            &&& revision > i64::MAX ==> enqueueing(row, revision, reply) == EnqueueView::Done(
                Err(
                    DbErrorView::InvalidData(
                        "transfer delivery revision exceeds PostgreSQL bigint"@,
                    ),
                ),
            )
        }),
{
}

/// The columns of a claimed row are refused exactly if the revision is negative
/// or the token is missing, the revision first.
pub proof fn law_claimed_rows_have_a_revision_and_a_token(columns: DeliveryColumns)
    ensures
        columns_fault(columns) is None <==> columns.revision >= 0 && columns.claim_token is Some,
        columns.revision < 0 ==> columns_fault(columns) == Some(
            DbErrorView::InvalidData("stored transfer delivery revision cannot be negative"@),
        ),
        columns.revision >= 0 && columns.claim_token is None ==> columns_fault(columns) == Some(
            DbErrorView::InvalidData("claimed transfer delivery has no claim token"@),
        ),
{
}

/// A row is due exactly if it is pending, its lease is over or was never taken,
/// and its retry time has come or was never set.
pub proof fn law_due_rows_are_pending_unleased_and_retriable(row: ScheduleView, now: i64)
    ensures
        is_candidate(row, now) <==> {
            &&& !(row.state is Delivered || row.state is Failed)
            &&& row.lease_expires_at is Some ==> now > row.lease_expires_at->0
            &&& row.retry_after is Some ==> now >= row.retry_after->0
        },
        lease_over(row, now) <==> (row.lease_expires_at is Some ==> now > row.lease_expires_at->0),
{
}

/// Rows are attempted in a total order: one without a retry time before one with
/// it, an earlier retry time before a later one, and at the same retry time an
/// older row before a younger one.
pub proof fn law_attempts_follow_retry_time_and_age(
    a: ScheduleView,
    b: ScheduleView,
    c: ScheduleView,
)
    ensures
        not_after(a, b) || not_after(b, a),
        not_after(a, b) && not_after(b, c) ==> not_after(a, c),
        not_after(a, b) && not_after(b, a) ==> a.retry_after == b.retry_after && a.created_at
            == b.created_at,
        a.retry_after is None && b.retry_after is Some ==> not_after(a, b) && !not_after(b, a),
        a.retry_after is Some && b.retry_after is Some && a.retry_after->0 < b.retry_after->0
            ==> not_after(a, b) && !not_after(b, a),
        a.retry_after == b.retry_after && a.created_at < b.created_at ==> not_after(a, b)
            && !not_after(b, a),
{
}

/// A batch holds due rows only, none twice, in the order of their attempts and
/// within its limit. It leaves a due row out only if it is full of rows that do
/// not come after that row; so with room for all of them it holds every due row.
pub proof fn law_batches_hold_the_first_due_rows(
    rows: Seq<ScheduleView>,
    now: i64,
    limit: nat,
    picked: Seq<usize>,
    i: int,
    j: int,
    k: usize,
)
    requires
        is_batch(rows, now, limit, picked),
    ensures
        picked.len() <= limit,
        0 <= i < picked.len() ==> picked[i] < rows.len() && is_candidate(
            rows[picked[i] as int],
            now,
        ),
        0 <= i < j < picked.len() ==> picked[i] != picked[j] && not_after(
            rows[picked[i] as int],
            rows[picked[j] as int],
        ),
        k < rows.len() && is_candidate(rows[k as int], now) && !picked.contains(k) ==> picked.len()
            == limit && (0 <= i < picked.len() ==> not_after(
            rows[picked[i] as int],
            rows[k as int],
        )),
{
}

/// As long as a batch has room, every due row is in it, and a batch without rows
/// and with room means that nothing is due.
pub proof fn law_batches_with_room_miss_nothing(
    rows: Seq<ScheduleView>,
    now: i64,
    limit: nat,
    picked: Seq<usize>,
    k: usize,
)
    requires
        is_batch(rows, now, limit, picked),
        k < rows.len(),
        is_candidate(rows[k as int], now),
        picked.len() < limit,
    ensures
        picked.contains(k),
{
}

/// A claim sets the holder, the lease and the token, and touches nothing else
/// but the time of the last change.
pub proof fn law_claims_only_set_the_lease(
    row: ScheduleView,
    worker: Seq<char>,
    lease_until: i64,
    token: Seq<u8>,
    now: i64,
)
    ensures
        ({
            let after = claimed(row, worker, lease_until, token, now);
            &&& after.held_by == Some(worker)
            &&& after.lease_expires_at == Some(lease_until)
            &&& after.claim_token == Some(token)
            &&& after.updated_at == now
            &&& after.state == row.state
            &&& after.attempt_count == row.attempt_count
            &&& after.error_message == row.error_message
            &&& after.retry_after == row.retry_after
            &&& after.delivered_at == row.delivered_at
            &&& after.created_at == row.created_at
        }),
{
}

/// The rows of a claimed batch are claimed for the worker until the end of the
/// lease, each under its own token, and every other row is as it was.
pub proof fn law_claimed_batches_hold_their_tokens(
    before: Seq<ScheduleView>,
    after: Seq<ScheduleView>,
    picked: Seq<usize>,
    worker: Seq<char>,
    lease_until: i64,
    tokens: Seq<[u8; 16]>,
    now: i64,
    i: int,
    k: usize,
)
    requires
        batch_claimed(before, after, picked, worker, lease_until, tokens, now),
    ensures
        after.len() == before.len(),
        k < before.len() && !picked.contains(k) ==> after[k as int] == before[k as int],
        0 <= i < picked.len() ==> after[picked[i] as int] == (ScheduleView {
            held_by: Some(worker),
            lease_expires_at: Some(lease_until),
            claim_token: Some(tokens[i]@),
            updated_at: now,
            ..before[picked[i] as int]
        }),
{
}

/// A token holds a row exactly if the row is pending and was claimed under it.
pub proof fn law_tokens_hold_pending_rows(row: ScheduleView, token: Seq<u8>)
    ensures
        holds_claim(row, token) <==> !(row.state is Delivered || row.state is Failed)
            && row.claim_token is Some && row.claim_token->0 == token,
{
}

/// A delivery is recorded with its time, frees the row, and keeps what is known
/// of its attempts.
pub proof fn law_deliveries_are_recorded(row: ScheduleView, now: i64)
    ensures
        ({
            let after = delivered(row, now);
            &&& after.state is Delivered
            &&& after.delivered_at == Some(now)
            &&& after.updated_at == now
            &&& after.held_by is None
            &&& after.lease_expires_at is None
            &&& after.claim_token is None
            &&& after.attempt_count == row.attempt_count
            &&& after.error_message == row.error_message
            &&& after.retry_after == row.retry_after
            &&& after.created_at == row.created_at
        }),
{
}

/// A failure is counted with its error and frees the row. Before the tenth one
/// the row waits for the delay of its earlier failures; with the tenth it is
/// given up.
pub proof fn law_failures_are_counted_to_ten(row: ScheduleView, error: Seq<char>, now: i64)
    requires
        0 <= row.attempt_count < i32::MAX,
        now <= i64::MAX - 300_000_000,
    ensures
        ({
            let after = failed(row, error, now);
            &&& after.attempt_count == row.attempt_count + 1
            &&& after.error_message == Some(error)
            &&& after.updated_at == now
            &&& after.held_by is None
            &&& after.lease_expires_at is None
            &&& after.claim_token is None
            &&& after.delivered_at == row.delivered_at
            &&& after.created_at == row.created_at
            &&& row.attempt_count <= 8 ==> after.state is Pending && after.retry_after is Some
                && after.retry_after->0 == now + 1_000_000 * pow2(row.attempt_count as nat)
            &&& row.attempt_count >= 9 ==> after.state is Failed && after.retry_after is None
        }),
{
    law_delays_double_to_five_minutes(row.attempt_count as nat);
}

/// The first delay is one second, every further failure doubles it, and from the
/// ninth doubling on it is five minutes.
pub proof fn law_delays_double_to_five_minutes(attempts: nat)
    ensures
        backoff_secs(0) == 1,
        attempts <= 8 ==> backoff_secs(attempts) == pow2(attempts),
        attempts < 8 ==> backoff_secs(attempts + 1) == 2 * backoff_secs(attempts),
        attempts >= 9 ==> backoff_secs(attempts) == 300,
        backoff_secs(attempts) <= 300,
{
    lemma2_to64();
    lemma_pow2_unfold(attempts + 1);
    if attempts < 8 {
        lemma_pow2_strictly_increases(attempts, 8);
        lemma_pow2_strictly_increases(attempts + 1, 9);
    }
    if attempts > 9 {
        lemma_pow2_strictly_increases(9, attempts);
    }
}

/// Only the token that holds a row changes it: a failure under it is counted,
/// and under any other nothing happens.
pub proof fn law_failures_need_the_token(
    row: ScheduleView,
    token: Seq<u8>,
    error: Seq<char>,
    now: i64,
)
    ensures
        failure(row, token, error, now).0 <==> row.state is Pending && row.claim_token == Some(
            token,
        ),
        failure(row, token, error, now).0 ==> failure(row, token, error, now).1 == failed(
            row,
            error,
            now,
        ),
        !failure(row, token, error, now).0 ==> failure(row, token, error, now).1 == row,
{
}

/// The view of a row shows every column of it.
pub proof fn law_schedule_views_are_complete(row: DeliverySchedule, new: NewDelivery)
    ensures
        row@.state == row.state,
        row@.attempt_count == row.attempt_count,
        row@.error_message is Some <==> row.error_message is Some,
        row.error_message is Some ==> row@.error_message->0 == row.error_message->0@,
        row@.retry_after == row.retry_after,
        row@.held_by is Some <==> row.held_by is Some,
        row.held_by is Some ==> row@.held_by->0 == row.held_by->0@,
        row@.lease_expires_at == row.lease_expires_at,
        row@.claim_token is Some <==> row.claim_token is Some,
        row.claim_token is Some ==> row@.claim_token->0 == row.claim_token->0@,
        row@.delivered_at == row.delivered_at,
        row@.created_at == row.created_at,
        row@.updated_at == row.updated_at,
        new@.key.community_id == new.community_id,
        new@.key.agent_pubkey == new.agent_pubkey@,
        new@.key.operation_id == new.operation_id@,
        new@.key.revision == new.revision,
        new@.key.message_type == new.message_type@,
        new@.event_id == new.event_id@,
        new@.event == new.event@,
{
}

/// The view of a step of enqueueing shows the row or the answer that it carries,
/// and the count of a reply is read as it is.
pub proof fn law_enqueue_views_are_complete(step: EnqueueStep, count: u64, error: DbError)
    ensures
        step matches EnqueueStep::Insert(row) ==> step@ == EnqueueView::Insert(row@),
        step matches EnqueueStep::Done(Ok(new)) ==> step@ == EnqueueView::Done(Ok(new)),
        step matches EnqueueStep::Done(Err(failed)) ==> step@ == EnqueueView::Done(Err(failed@)),
        count_view(None) is None,
        count_view(Some(Ok(count))) == Some(Ok::<u64, DbErrorView>(count)),
        count_view(Some(Err(error))) == Some(Err::<u64, DbErrorView>(error@)),
{
}

} // verus!
