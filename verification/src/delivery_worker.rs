//! Retry worker that brings queued coordinator events to live runtimes.
//!
//! The worker only transports events that were authenticated before. It changes
//! no transfer state and starts no process, so a duplicate delivery is harmless
//! at the event id.

use vstd::prelude::*;

use crate::delivery_queue::{ManagedAgentTransferDelivery, MICROS_PER_SEC};
use crate::keys::{
    hex_bytes, hyphenated, is_hex_text, key_result_view, lower_hex, public_key_from_hex, uuid_text,
};
use crate::signed_event::{
    event_from_value, event_of_value, event_verification, unit_result_view, verify_event, EventView,
    SignedEvent,
};
use crate::text::{join2, str_eq};
use crate::transfer_store::DbError;

verus! {

/// Length of the lease of a claimed row, in seconds.
pub const LEASE_SECS: i64 = 30;

/// Most rows that one claim takes.
pub const BATCH_SIZE: i64 = 16;

/// First delay after an empty claim, in milliseconds.
pub const IDLE_DELAY_MS: u64 = 500;

/// Longest delay after an empty claim, in milliseconds.
pub const MAX_IDLE_DELAY_MS: u64 = 10_000;

/// Delay after a failed claim, in milliseconds.
pub const CLAIM_RETRY_MS: u64 = 5_000;

/// The name under which a worker holds its leases.
pub fn worker_id(uuid: [u8; 16]) -> (res: String)
    ensures
        res@ == "agent-transfer-delivery-"@ + hyphenated(uuid@),
{
    join2("agent-transfer-delivery-", uuid_text(uuid).as_str())
}

/// The end of a lease that is taken at the time `now`, in microseconds.
pub fn lease_until(now: i64) -> (res: i64)
    requires
        now <= i64::MAX - LEASE_SECS * MICROS_PER_SEC,
    ensures
        res == now + LEASE_SECS * MICROS_PER_SEC,
{
    now + LEASE_SECS * MICROS_PER_SEC
}

/// What the worker does after a claim.
#[derive(Debug, Clone, Copy, PartialEq, Eq, Structural)]
pub enum WorkerAction {
    /// Deliver the rows of the batch, then claim again.
    DeliverBatch,
    /// Sleep, then claim again.
    Sleep {
        /// Milliseconds to sleep.
        millis: u64,
    },
}

/// The rhythm in which a worker claims rows.
#[derive(Debug, Clone, Copy, PartialEq, Eq, Structural)]
pub struct WorkerPace {
    /// Delay after the next empty claim, in milliseconds.
    pub idle_delay_ms: u64,
}

/// The delay stays between its first and its longest value.
pub open spec fn pace_fits(pace: WorkerPace) -> bool {
    IDLE_DELAY_MS <= pace.idle_delay_ms <= MAX_IDLE_DELAY_MS
}

/// Twice the delay, but not above the longest one.
pub open spec fn doubled(delay: u64, longest: u64) -> u64 {
    if 2 * delay <= longest {
        (2 * delay) as u64
    } else {
        longest
    }
}

/// What follows a claim that failed (`None`) or took `Some(n)` rows.
pub open spec fn paced(pace: WorkerPace, claimed: Option<nat>) -> (WorkerAction, WorkerPace) {
    match claimed {
        None => (WorkerAction::Sleep { millis: CLAIM_RETRY_MS }, pace),
        Some(n) => if n == 0 {
            (
                WorkerAction::Sleep { millis: pace.idle_delay_ms },
                WorkerPace { idle_delay_ms: doubled(pace.idle_delay_ms, MAX_IDLE_DELAY_MS) },
            )
        } else {
            (WorkerAction::DeliverBatch, WorkerPace { idle_delay_ms: IDLE_DELAY_MS })
        },
    }
}

/// The number of rows that a claim took, if it did not fail.
pub open spec fn claim_size(
    batch: Result<Vec<ManagedAgentTransferDelivery>, DbError>,
) -> Option<nat> {
    match batch {
        Ok(rows) => Some(rows@.len()),
        Err(_) => None,
    }
}

impl WorkerPace {
    /// The rhythm of a worker that starts.
    pub fn new() -> (res: Self)
        ensures
            res.idle_delay_ms == IDLE_DELAY_MS,
            pace_fits(res),
    {
        WorkerPace { idle_delay_ms: IDLE_DELAY_MS }
    }

    /// Takes the result of a claim and says what follows.
    pub fn run(&mut self, batch: &Result<Vec<ManagedAgentTransferDelivery>, DbError>) -> (res:
        WorkerAction)
        requires
            pace_fits(*old(self)),
        ensures
            (res, *final(self)) == paced(*old(self), claim_size(*batch)),
            pace_fits(*final(self)),
    {
        match batch {
            Err(_) => WorkerAction::Sleep { millis: CLAIM_RETRY_MS },
            Ok(rows) => {
                if rows.len() == 0 {
                    let millis = self.idle_delay_ms;
                    self.idle_delay_ms = if 2 * millis <= MAX_IDLE_DELAY_MS {
                        2 * millis
                    } else {
                        MAX_IDLE_DELAY_MS
                    };
                    return WorkerAction::Sleep { millis };
                }
                self.idle_delay_ms = IDLE_DELAY_MS;
                WorkerAction::DeliverBatch
            },
        }
    }
}

/// The key of the agent to which a stored event goes, or the refusal of the
/// event, given how its verification ended.
pub open spec fn destination(
    event: EventView,
    verification: Result<(), Seq<char>>,
    event_id: Seq<char>,
    agent_pubkey: Seq<char>,
    coordinator_kind: u32,
) -> Result<Seq<u8>, Seq<char>> {
    if verification is Err {
        Err("stored event signature is invalid: "@ + verification->Err_0)
    } else if lower_hex(event.id) != event_id {
        Err("stored event id does not match delivery row"@)
    } else if event.kind != coordinator_kind {
        Err("stored event has the wrong transfer coordinator kind"@)
    } else if !(agent_pubkey.len() == 64 && is_hex_text(agent_pubkey)) {
        Err("delivery row has an invalid target agent key"@)
    } else {
        Ok(hex_bytes(agent_pubkey))
    }
}

/// Checks a stored event, whose verification ended with `verification`, against
/// its row.
pub fn check_stored_event(
    event: &SignedEvent,
    verification: Result<(), String>,
    row: &ManagedAgentTransferDelivery,
    coordinator_kind: u32,
) -> (res: Result<[u8; 32], String>)
    ensures
        key_result_view(res) == destination(
            event@,
            unit_result_view(verification),
            row.event_id@,
            row.agent_pubkey@,
            coordinator_kind,
        ),
{
    if let Err(error) = verification {
        return Err(join2("stored event signature is invalid: ", error.as_str()));
    }
    if !str_eq(event.id_hex().as_str(), row.event_id.as_str()) {
        return Err("stored event id does not match delivery row".to_owned());
    }
    if event.kind as u32 != coordinator_kind {
        return Err("stored event has the wrong transfer coordinator kind".to_owned());
    }
    match public_key_from_hex(row.agent_pubkey.as_str()) {
        Some(key) => Ok(key),
        None => Err("delivery row has an invalid target agent key".to_owned()),
    }
}

/// An event that is ready to be sent, and the key of its agent.
#[derive(Debug, PartialEq, Eq)]
pub struct PreparedDelivery {
    /// The event to send.
    pub event: SignedEvent,
    /// Key of the agent whose connections get it.
    pub agent: [u8; 32],
}

/// The event and the key of its agent, or the refusal of the row.
pub open spec fn preparation(
    event: Seq<char>,
    event_id: Seq<char>,
    agent_pubkey: Seq<char>,
    coordinator_kind: u32,
) -> Result<(EventView, Seq<u8>), Seq<char>> {
    match event_of_value(event) {
        Err(error) => Err("stored event is invalid: "@ + error),
        Ok(event) => match destination(
            event,
            event_verification(event),
            event_id,
            agent_pubkey,
            coordinator_kind,
        ) {
            Ok(key) => Ok((event, key)),
            Err(text) => Err(text),
        },
    }
}

/// Decodes, verifies and checks the event of a claimed row.
///
/// `coordinator_kind` is the event kind that the deployment reserves for
/// transfer coordination. The caller then sends the event to the connections
/// of the agent and reports their number to [`sent_to`].
pub fn try_deliver(row: &ManagedAgentTransferDelivery, coordinator_kind: u32) -> (res: Result<
    PreparedDelivery,
    String,
>)
    ensures
        match preparation(row.event@, row.event_id@, row.agent_pubkey@, coordinator_kind) {
            Ok((event, key)) => res matches Ok(prepared) && prepared.event@ == event
                && prepared.agent@ == key,
            Err(text) => res matches Err(message) && message@ == text,
        },
{
    let event = match event_from_value(row.event.as_str()) {
        Ok(event) => event,
        Err(error) => {
            return Err(join2("stored event is invalid: ", error.as_str()));
        },
    };
    match check_stored_event(&event, verify_event(&event), row, coordinator_kind) {
        Ok(agent) => Ok(PreparedDelivery { event, agent }),
        Err(message) => Err(message),
    }
}

/// Judges a delivery by the number of connections that took the event.
pub fn sent_to(sent: usize) -> (res: Result<(), String>)
    ensures
        sent > 0 ==> res is Ok,
        sent == 0 ==> (res matches Err(message) && message@ == "target runtime is not connected"@),
{
    if sent == 0 {
        return Err("target runtime is not connected".to_owned());
    }
    Ok(())
}

/// What becomes of a row after an attempt.
#[derive(Debug, PartialEq, Eq)]
pub enum DeliveryVerdict {
    /// Mark the row as delivered under its token.
    Complete {
        /// Id of the row.
        id: [u8; 16],
        /// Token of the claim.
        claim_token: [u8; 16],
    },
    /// Record the failure under the token.
    Defer {
        /// Id of the row.
        id: [u8; 16],
        /// Token of the claim.
        claim_token: [u8; 16],
        /// The error to record.
        error: String,
    },
}

/// Says what becomes of a row whose attempt ended with `attempt`.
pub fn deliver_one(row: &ManagedAgentTransferDelivery, attempt: Result<(), String>) -> (res:
    DeliveryVerdict)
    ensures
        match attempt {
            Ok(_) => res == (DeliveryVerdict::Complete {
                id: row.id,
                claim_token: row.claim_token,
            }),
            Err(error) => res == (DeliveryVerdict::Defer {
                id: row.id,
                claim_token: row.claim_token,
                error,
            }),
        },
{
    match attempt {
        Ok(()) => DeliveryVerdict::Complete { id: row.id, claim_token: row.claim_token },
        Err(error) => DeliveryVerdict::Defer { id: row.id, claim_token: row.claim_token, error },
    }
}

/// What a worker sends is a verified event of the coordinator kind whose id is
/// the one that the row names, and it goes to the agent that the row names.
pub proof fn law_only_matching_events_are_sent(
    event: Seq<char>,
    event_id: Seq<char>,
    agent_pubkey: Seq<char>,
    coordinator_kind: u32,
)
    requires
        preparation(event, event_id, agent_pubkey, coordinator_kind) is Ok,
    ensures
        ({
            let (sent, key) = preparation(event, event_id, agent_pubkey, coordinator_kind)->Ok_0;
            &&& event_of_value(event) == Ok::<EventView, Seq<char>>(sent)
            &&& event_verification(sent) is Ok
            &&& lower_hex(sent.id) == event_id
            &&& sent.kind == coordinator_kind
            &&& key == hex_bytes(agent_pubkey)
        }),
{
}

/// While nothing is queued the delay never falls, and it stays in its bounds.
pub proof fn law_idle_delay_grows_to_its_bound(pace: WorkerPace)
    requires
        pace_fits(pace),
    ensures
        ({
            let (action, next) = paced(pace, Some(0));
            &&& pace_fits(next)
            &&& next.idle_delay_ms >= pace.idle_delay_ms
            &&& next.idle_delay_ms > pace.idle_delay_ms || pace.idle_delay_ms == MAX_IDLE_DELAY_MS
            &&& action == (WorkerAction::Sleep { millis: pace.idle_delay_ms })
        }),
{
}

/// The event of a row is sent exactly if it decodes, is verified, has the id and
/// the kind that it should have, and the row names a key of 64 hexadecimal
/// digits; it is then the stored event, and goes to that key.
pub proof fn law_matching_events_are_sent(
    event: Seq<char>,
    event_id: Seq<char>,
    agent_pubkey: Seq<char>,
    coordinator_kind: u32,
)
    ensures
        ({
            let prepared = preparation(event, event_id, agent_pubkey, coordinator_kind);
            &&& prepared is Ok <==> {
                &&& event_of_value(event) is Ok
                &&& event_verification(event_of_value(event)->Ok_0) is Ok
                &&& lower_hex(event_of_value(event)->Ok_0.id) == event_id
                &&& event_of_value(event)->Ok_0.kind == coordinator_kind
                &&& agent_pubkey.len() == 64
                &&& is_hex_text(agent_pubkey)
            }
            &&& prepared is Ok ==> prepared->Ok_0.0 == event_of_value(event)->Ok_0
                && prepared->Ok_0.1 == hex_bytes(agent_pubkey)
            &&& event_of_value(event) is Err ==> prepared == Err::<(EventView, Seq<u8>), Seq<char>>(
                "stored event is invalid: "@ + event_of_value(event)->Err_0,
            )
        }),
{
}

/// A stored event is refused for the first thing that is wrong with it, and the
/// refusal names it.
pub proof fn law_stored_event_refusals_name_the_fault(
    event: EventView,
    verification: Result<(), Seq<char>>,
    event_id: Seq<char>,
    agent_pubkey: Seq<char>,
    coordinator_kind: u32,
)
    ensures
        ({
            let checked = destination(
                event,
                verification,
                event_id,
                agent_pubkey,
                coordinator_kind,
            );
            let same_id = lower_hex(event.id) == event_id;
            let keyed = agent_pubkey.len() == 64 && is_hex_text(agent_pubkey);
            &&& verification is Err ==> checked == Err::<Seq<u8>, Seq<char>>(
                "stored event signature is invalid: "@ + verification->Err_0,
            )
            &&& verification is Ok && !same_id ==> checked == Err::<Seq<u8>, Seq<char>>(
                "stored event id does not match delivery row"@,
            )
            &&& verification is Ok && same_id && event.kind != coordinator_kind ==> checked
                == Err::<Seq<u8>, Seq<char>>(
                "stored event has the wrong transfer coordinator kind"@,
            )
            &&& verification is Ok && same_id && event.kind == coordinator_kind && !keyed ==> checked
                == Err::<Seq<u8>, Seq<char>>("delivery row has an invalid target agent key"@)
            &&& verification is Ok && same_id && event.kind == coordinator_kind && keyed ==> checked
                == Ok::<Seq<u8>, Seq<char>>(hex_bytes(agent_pubkey))
        }),
{
}

/// A claim with rows is delivered and brings the delay back to half a second. An
/// empty claim waits for the delay and doubles it up to ten seconds. A failed
/// claim waits for five seconds and leaves the delay alone.
pub proof fn law_claims_set_the_pace(pace: WorkerPace, rows: nat)
    requires
        500 <= pace.idle_delay_ms <= 10_000,
    ensures
        rows > 0 ==> paced(pace, Some(rows)).0 is DeliverBatch && paced(
            pace,
            Some(rows),
        ).1.idle_delay_ms == 500,
        paced(pace, Some(0)).0 == (WorkerAction::Sleep { millis: pace.idle_delay_ms }),
        pace.idle_delay_ms <= 5_000 ==> paced(pace, Some(0)).1.idle_delay_ms == 2
            * pace.idle_delay_ms,
        pace.idle_delay_ms >= 5_000 ==> paced(pace, Some(0)).1.idle_delay_ms == 10_000,
        paced(pace, None) == ((WorkerAction::Sleep { millis: 5_000 }), pace),
        pace_fits(pace),
{
}

/// Doubling never passes the longest delay, and reaches it.
pub proof fn law_doubling_stops_at_the_longest(delay: u64, longest: u64)
    ensures
        2 * delay <= longest ==> doubled(delay, longest) == 2 * delay,
        2 * delay >= longest ==> doubled(delay, longest) == longest,
{
}

/// A claim takes at most sixteen rows under a lease of thirty seconds, and its
/// size is the number of rows that it took, unless it failed.
pub proof fn law_claims_are_small_and_short(
    rows: Vec<ManagedAgentTransferDelivery>,
    error: DbError,
)
    ensures
        BATCH_SIZE == 16,
        LEASE_SECS * MICROS_PER_SEC == 30_000_000,
        claim_size(Ok(rows)) == Some(rows@.len()),
        claim_size(Err(error)) is None,
{
}

} // verus!
