//! Start of a target runtime by the desktop that the transfer names.
//!
//! The relay queues an owner's start event while the target runtime is offline.
//! The desktop listens as the agent, checks the event, and starts the runtime
//! with it. No transfer state changes here.

use vstd::prelude::*;

use crate::agent_transfer::{
    error_text, record_fault, well_formed, RecordView, TransferPhase, TransferRecord,
};
use crate::coordinator_handler::is_start_request;
use crate::coordinator_route::{
    law_routed_events_are_signed_by_their_sender, message_agent, route_of,
};
use crate::delivery_worker::doubled;
use crate::keys::{hex_encode, key_result_view, lower_hex, names_key};
use crate::pairs::{keys_distinct, lemma_pairs_map, lemma_pairs_push, pairs_map};
use crate::signed_event::{
    event_verification, lemma_tag_names_differ, signed_by_tagged_owner, tag_is, tag_named,
    unit_result_view, verify_event, EventView, SignedEvent,
};
use crate::text::{join2, join3, str_eq, str_trim, trimmed};
use crate::transfer_bootstrap::{
    addressed_to, bootstrap_refusal, law_bootstrap_is_as_strict_as_the_relay,
};
use crate::wire::{
    TransferCoordinatorEnvelope, TransferCoordinatorMessage, TransferOwnerRequest,
};

verus! {

/// Start of the subscription id of a worker.
pub const SUBSCRIPTION_ID_PREFIX: &'static str = "managed-agent-transfer-bootstrap";

/// Seconds between two comparisons of the workers with the saved agents.
pub const RECONCILE_INTERVAL_SECS: u64 = 5;

/// Longest wait for one message of the relay, in seconds.
pub const READ_TIMEOUT_SECS: u64 = 30;

/// First delay before a worker tries again, in seconds.
pub const RETRY_BASE_SECS: u64 = 1;

/// Longest delay before a worker tries again, in seconds.
pub const RETRY_MAX_SECS: u64 = 30;

/// Every tag is a `p` or an `agent` tag of two values, and neither name occurs
/// twice.
pub open spec fn pair_tags_fit(tags: Seq<Seq<Seq<char>>>) -> bool {
    &&& forall|i: int|
        0 <= i < tags.len() ==> tag_named(#[trigger] tags[i], "p"@) || tag_named(
            tags[i],
            "agent"@,
        )
    &&& forall|i: int, j: int|
        0 <= i < j < tags.len() ==> (#[trigger] tags[i])[0] != (#[trigger] tags[j])[0]
}

/// The message that refuses a start record for an agent on an instance.
pub open spec fn start_refusal(
    record: RecordView,
    agent: Seq<char>,
    local: Seq<char>,
) -> Option<Seq<char>> {
    if record_fault(record) is Some {
        Some("transfer record is invalid: "@ + error_text(record_fault(record)->0))
    } else if record.agent_pubkey != agent {
        Some("transfer record targets another agent"@)
    } else if record.target.instance_id != local {
        Some("transfer target is another Desktop instance"@)
    } else if !(record.phase is Preparing) {
        Some("owner-start transfer is not in preparing phase"@)
    } else {
        None
    }
}

/// The message that refuses a decoded envelope.
pub open spec fn envelope_refusal(
    envelope: Result<TransferCoordinatorEnvelope, String>,
    agent: Seq<char>,
    local: Seq<char>,
) -> Option<Seq<char>> {
    match envelope {
        Err(error) => Some("transfer envelope is invalid: "@ + error@),
        Ok(envelope) => match envelope.message {
            TransferCoordinatorMessage::OwnerRequest {
                request: TransferOwnerRequest::Start { transfer },
            } => start_refusal(transfer@, agent, local),
            _ => Some("event is not an owner-start request"@),
        },
    }
}

/// The message that refuses an event, given how its verification ended.
pub open spec fn event_refusal(
    event: EventView,
    verification: Result<(), Seq<char>>,
    envelope: Result<TransferCoordinatorEnvelope, String>,
    agent: Seq<char>,
    local: Seq<char>,
    coordinator_kind: u32,
) -> Option<Seq<char>> {
    if event.kind != coordinator_kind {
        Some("event kind is not the transfer coordinator kind"@)
    } else if verification is Err {
        Some("signature verification failed: "@ + verification->Err_0)
    } else if !pair_tags_fit(event.tags) {
        Some("routing tags are not the canonical p/agent pair"@)
    } else if !addressed_to(event.tags, agent) {
        Some("event is not addressed to this agent"@)
    } else if !signed_by_tagged_owner(event) {
        Some("owner routing tag does not match event signer"@)
    } else {
        envelope_refusal(envelope, agent, local)
    }
}

/// The places of the two routing tags.
struct RoutingTags {
    owner: Option<usize>,
    agent: Option<usize>,
}

spec fn places_fit(tags: Seq<Seq<Seq<char>>>, n: int, places: RoutingTags) -> bool {
    &&& forall|i: int|
        0 <= i < n ==> tag_named(#[trigger] tags[i], "p"@) || tag_named(tags[i], "agent"@)
    &&& match places.owner {
        Some(k) => k < n && tag_named(tags[k as int], "p"@) && forall|i: int|
            0 <= i < n && i != k ==> !tag_named(#[trigger] tags[i], "p"@),
        None => forall|i: int| 0 <= i < n ==> !tag_named(#[trigger] tags[i], "p"@),
    }
    &&& match places.agent {
        Some(k) => k < n && tag_named(tags[k as int], "agent"@) && forall|i: int|
            0 <= i < n && i != k ==> !tag_named(#[trigger] tags[i], "agent"@),
        None => forall|i: int| 0 <= i < n ==> !tag_named(#[trigger] tags[i], "agent"@),
    }
}

fn find_routing_tags(event: &SignedEvent) -> (res: Option<RoutingTags>)
    ensures
        match res {
            Some(places) => pair_tags_fit(event@.tags) && places_fit(
                event@.tags,
                event@.tags.len() as int,
                places,
            ),
            None => !pair_tags_fit(event@.tags),
        },
{
    let ghost tags = event@.tags;
    let mut places = RoutingTags { owner: None, agent: None };
    let mut i: usize = 0;
    while i < event.tags.len()
        invariant
            tags == event@.tags,
            tags.len() == event.tags.len(),
            i <= event.tags.len(),
            places_fit(tags, i as int, places),
        decreases event.tags.len() - i,
    {
        proof {
            lemma_tag_names_differ();
        }
        let tag = &event.tags[i];
        assert(tags[i as int] == tag.deep_view());
        if tag_is(tag, "p") && places.owner.is_none() {
            places.owner = Some(i);
        } else if tag_is(tag, "agent") && places.agent.is_none() {
            places.agent = Some(i);
        } else {
            assert(!pair_tags_fit(tags)) by {
                if tag_named(tags[i as int], "p"@) {
                    assert(tags[places.owner->0 as int][0] == tags[i as int][0]);
                }
                if tag_named(tags[i as int], "agent"@) {
                    assert(tags[places.agent->0 as int][0] == tags[i as int][0]);
                }
            }
            return None;
        }
        i = i + 1;
    }
    assert forall|a: int, b: int| 0 <= a < b < tags.len() implies (#[trigger] tags[a])[0] != (
    #[trigger] tags[b])[0] by {
        lemma_tag_names_differ();
        assert(tag_named(tags[a], "p"@) || tag_named(tags[a], "agent"@));
        assert(tag_named(tags[b], "p"@) || tag_named(tags[b], "agent"@));
    }
    Some(places)
}

fn check_start_record(record: &TransferRecord, agent_pubkey: &str, local_instance_id: &str) -> (res:
    Result<(), String>)
    ensures
        unit_result_view(res).err() == start_refusal(record@, agent_pubkey@, local_instance_id@),
{
    if let Err(error) = record.validate() {
        return Err(join2("transfer record is invalid: ", error.message().as_str()));
    }
    if !str_eq(record.agent_pubkey.as_str(), agent_pubkey) {
        return Err("transfer record targets another agent".to_owned());
    }
    if !str_eq(record.target.instance_id.as_str(), local_instance_id) {
        return Err("transfer target is another Desktop instance".to_owned());
    }
    if record.phase != TransferPhase::Preparing {
        return Err("owner-start transfer is not in preparing phase".to_owned());
    }
    Ok(())
}

/// Checks an event whose verification ended with `verification` and whose
/// content was decoded to `envelope`.
pub fn check_owner_start_event(
    event: &SignedEvent,
    verification: Result<(), String>,
    envelope: Result<TransferCoordinatorEnvelope, String>,
    agent_pubkey: &str,
    local_instance_id: &str,
    coordinator_kind: u32,
) -> (res: Result<(), String>)
    ensures
        unit_result_view(res).err() == event_refusal(
            event@,
            unit_result_view(verification),
            envelope,
            agent_pubkey@,
            local_instance_id@,
            coordinator_kind,
        ),
{
    if event.kind as u32 != coordinator_kind {
        return Err("event kind is not the transfer coordinator kind".to_owned());
    }
    if let Err(error) = verification {
        return Err(join2("signature verification failed: ", error.as_str()));
    }
    let ghost tags = event@.tags;
    let places = match find_routing_tags(event) {
        Some(places) => places,
        None => {
            return Err("routing tags are not the canonical p/agent pair".to_owned());
        },
    };
    let addressed = match places.agent {
        Some(k) => {
            assert(tags[k as int] == event.tags@[k as int].deep_view());
            str_eq(event.tags[k][1].as_str(), agent_pubkey)
        },
        None => false,
    };
    if event.tags.len() != 2 || places.owner.is_none() || !addressed {
        assert(!addressed_to(tags, agent_pubkey@)) by {
            if addressed_to(tags, agent_pubkey@) {
                lemma_tag_names_differ();
                let i = choose|i: int|
                    0 <= i < 2 && tag_named(#[trigger] tags[i], "agent"@) && tags[i][1]
                        == agent_pubkey@;
                assert(tags[0][0] != tags[1][0]);
                assert(tag_named(tags[1 - i], "p"@) || tag_named(tags[1 - i], "agent"@));
            }
        }
        return Err("event is not addressed to this agent".to_owned());
    }
    let signed = match places.owner {
        Some(k) => {
            assert(tags[k as int] == event.tags@[k as int].deep_view());
            str_eq(event.pubkey_hex().as_str(), event.tags[k][1].as_str())
        },
        None => false,
    };
    if !signed {
        return Err("owner routing tag does not match event signer".to_owned());
    }
    let envelope = match envelope {
        Ok(envelope) => envelope,
        Err(error) => {
            return Err(join2("transfer envelope is invalid: ", error.as_str()));
        },
    };
    match &envelope.message {
        TransferCoordinatorMessage::OwnerRequest { request } => match request {
            TransferOwnerRequest::Start { transfer } => check_start_record(
                transfer,
                agent_pubkey,
                local_instance_id,
            ),
            TransferOwnerRequest::Status { .. } => Err(
                "event is not an owner-start request".to_owned(),
            ),
        },
        TransferCoordinatorMessage::ExecutorCommand { .. } => Err(
            "event is not an owner-start request".to_owned(),
        ),
    }
}

/// Verifies and checks an owner's start event for this agent and instance.
///
/// `envelope` is the decoded content or the message of the decoder, and
/// `coordinator_kind` the event kind that the deployment reserves for transfer
/// coordination.
pub fn validate_owner_start_event(
    event: &SignedEvent,
    envelope: Result<TransferCoordinatorEnvelope, String>,
    agent_pubkey: &str,
    local_instance_id: &str,
    coordinator_kind: u32,
) -> (res: Result<(), String>)
    ensures
        unit_result_view(res).err() == event_refusal(
            event@,
            event_verification(event@),
            envelope,
            agent_pubkey@,
            local_instance_id@,
            coordinator_kind,
        ),
{
    check_owner_start_event(
        event,
        verify_event(event),
        envelope,
        agent_pubkey,
        local_instance_id,
        coordinator_kind,
    )
}

/// The subscription id of the worker of an agent.
pub fn subscription_id(pubkey: &str) -> (res: String)
    ensures
        res@ == SUBSCRIPTION_ID_PREFIX@ + "-"@ + pubkey@,
{
    join3(SUBSCRIPTION_ID_PREFIX, "-", pubkey)
}

/// The public key that belongs to a secret key, or the message that refuses
/// the text of the secret key.
pub uninterp spec fn key_of_secret(secret: Seq<char>) -> Result<Seq<u8>, Seq<char>>;

/// Calls `nostr::Keys::parse`, which reads a secret key from hexadecimal or
/// bech32 notation and derives its public key. The result is named, not
/// described: it depends on the text alone.
#[verifier::external_body]
fn parse_secret(secret: &str) -> (res: Result<[u8; 32], String>)
    ensures
        key_result_view(res) == key_of_secret(secret@),
{
    let keys = nostr::Keys::parse(secret).map_err(|error| error.to_string())?;
    Ok(keys.public_key().to_bytes())
}

/// Whether a saved secret key may be used for an agent.
#[derive(Debug, PartialEq, Eq)]
pub enum KeyVerdict {
    /// It is the key of the agent.
    Usable,
    /// It could not be read.
    Invalid {
        /// The message of the parser.
        error: String,
    },
    /// It is the key of another identity.
    Mismatch,
}

/// The content of a [`KeyVerdict`].
pub enum KeyVerdictView {
    Usable,
    Invalid(Seq<char>),
    Mismatch,
}

impl View for KeyVerdict {
    type V = KeyVerdictView;

    open spec fn view(&self) -> KeyVerdictView {
        match *self {
            KeyVerdict::Usable => KeyVerdictView::Usable,
            KeyVerdict::Invalid { error } => KeyVerdictView::Invalid(error@),
            KeyVerdict::Mismatch => KeyVerdictView::Mismatch,
        }
    }
}

/// The verdict on a parsed secret key for the agent `pubkey`.
pub open spec fn key_verdict(parsed: Result<Seq<u8>, Seq<char>>, pubkey: Seq<char>) -> KeyVerdictView {
    match parsed {
        Err(error) => KeyVerdictView::Invalid(error),
        Ok(key) => if lower_hex(key) == pubkey {
            KeyVerdictView::Usable
        } else {
            KeyVerdictView::Mismatch
        },
    }
}

/// Judges a parsed secret key for an agent.
pub fn judge_key(parsed: Result<[u8; 32], String>, pubkey: &str) -> (res: KeyVerdict)
    ensures
        res@ == key_verdict(key_result_view(parsed), pubkey@),
{
    match parsed {
        Err(error) => KeyVerdict::Invalid { error },
        Ok(key) => {
            if str_eq(hex_encode(&key).as_str(), pubkey) {
                KeyVerdict::Usable
            } else {
                KeyVerdict::Mismatch
            }
        },
    }
}

/// Judges the saved secret key of an agent.
pub fn check_agent_key(private_key_nsec: &str, pubkey: &str) -> (res: KeyVerdict)
    ensures
        res@ == key_verdict(key_of_secret(trimmed(private_key_nsec@)), pubkey@),
{
    judge_key(parse_secret(str_trim(private_key_nsec)), pubkey)
}

/// What a worker has met on its way to the relay.
#[derive(Debug, Clone, Copy, PartialEq, Eq, Structural)]
pub enum WorkerEvent {
    /// It was cancelled.
    Cancelled,
    /// Its agent is no longer saved, or the saved agents could not be read.
    AgentMissing,
    /// The saved key cannot be used.
    KeyRejected,
    /// The relay could not be reached.
    ConnectFailed,
    /// The relay has accepted the connection.
    Connected,
    /// The subscription could not be sent.
    SubscribeFailed,
    /// The session is over.
    SessionEnded,
}

/// What a worker does next.
#[derive(Debug, Clone, Copy, PartialEq, Eq, Structural)]
pub enum WorkerMove {
    /// End the worker.
    Stop,
    /// Wait, unless it is cancelled, then begin again.
    Wait {
        /// Seconds to wait.
        secs: u64,
    },
    /// Subscribe and read messages.
    Subscribe,
}

/// The rhythm in which a worker tries again.
#[derive(Debug, Clone, Copy, PartialEq, Eq, Structural)]
pub struct RetryPace {
    /// Seconds before the next attempt.
    pub delay_secs: u64,
}

/// The delay stays between its first and its longest value.
pub open spec fn retry_fits(pace: RetryPace) -> bool {
    RETRY_BASE_SECS <= pace.delay_secs <= RETRY_MAX_SECS
}

/// The move of a worker, and its rhythm afterwards.
pub open spec fn worker_move(pace: RetryPace, event: WorkerEvent) -> (WorkerMove, RetryPace) {
    match event {
        WorkerEvent::Cancelled | WorkerEvent::AgentMissing => (WorkerMove::Stop, pace),
        WorkerEvent::KeyRejected
        | WorkerEvent::ConnectFailed
        | WorkerEvent::SessionEnded => (
            WorkerMove::Wait { secs: pace.delay_secs },
            RetryPace { delay_secs: doubled(pace.delay_secs, RETRY_MAX_SECS) },
        ),
        WorkerEvent::Connected => (
            WorkerMove::Subscribe,
            RetryPace { delay_secs: RETRY_BASE_SECS },
        ),
        WorkerEvent::SubscribeFailed => (WorkerMove::Wait { secs: pace.delay_secs }, pace),
    }
}

impl RetryPace {
    /// The rhythm of a worker that starts.
    pub fn new() -> (res: Self)
        ensures
            res.delay_secs == RETRY_BASE_SECS,
            retry_fits(res),
    {
        RetryPace { delay_secs: RETRY_BASE_SECS }
    }

    /// Takes an event of the worker and says what it does next.
    pub fn next_move(&mut self, event: WorkerEvent) -> (res: WorkerMove)
        requires
            retry_fits(*old(self)),
        ensures
            (res, *final(self)) == worker_move(*old(self), event),
            retry_fits(*final(self)),
    {
        match event {
            WorkerEvent::Cancelled | WorkerEvent::AgentMissing => WorkerMove::Stop,
            WorkerEvent::KeyRejected | WorkerEvent::ConnectFailed | WorkerEvent::SessionEnded => {
                let secs = self.delay_secs;
                self.delay_secs = if 2 * secs <= RETRY_MAX_SECS {
                    2 * secs
                } else {
                    RETRY_MAX_SECS
                };
                WorkerMove::Wait { secs }
            },
            WorkerEvent::Connected => {
                self.delay_secs = RETRY_BASE_SECS;
                WorkerMove::Subscribe
            },
            WorkerEvent::SubscribeFailed => WorkerMove::Wait { secs: self.delay_secs },
        }
    }
}

/// What a session yields.
#[derive(Debug, PartialEq, Eq)]
pub enum SessionMessage {
    /// The worker was cancelled.
    Cancelled,
    /// An event frame, under whatever subscription id.
    Event,
    /// The relay has closed a subscription.
    Closed {
        /// Id of the closed subscription.
        subscription_id: String,
    },
    /// Any other frame.
    Other,
    /// The connection failed.
    Failed,
}

/// What a worker does with a message of its session.
#[derive(Debug, Clone, Copy, PartialEq, Eq, Structural)]
pub enum SessionMove {
    /// Disconnect and end the worker.
    Stop,
    /// Check the event and start the runtime.
    HandleEvent,
    /// Read the next message.
    Continue,
    /// Disconnect; the session is over.
    End,
}

/// The move that follows a message in the session of a subscription.
pub open spec fn session_move(message: SessionMessage, own: Seq<char>) -> SessionMove {
    match message {
        SessionMessage::Cancelled => SessionMove::Stop,
        SessionMessage::Event => SessionMove::HandleEvent,
        SessionMessage::Closed { subscription_id } => if subscription_id@ == own {
            SessionMove::End
        } else {
            SessionMove::Continue
        },
        SessionMessage::Other => SessionMove::Continue,
        SessionMessage::Failed => SessionMove::End,
    }
}

/// Says what a worker does with a message of its session.
pub fn next_session_move(message: &SessionMessage, own_subscription_id: &str) -> (res: SessionMove)
    ensures
        res == session_move(*message, own_subscription_id@),
{
    match message {
        SessionMessage::Cancelled => SessionMove::Stop,
        SessionMessage::Event => SessionMove::HandleEvent,
        SessionMessage::Closed { subscription_id } => {
            if str_eq(subscription_id.as_str(), own_subscription_id) {
                SessionMove::End
            } else {
                SessionMove::Continue
            }
        },
        SessionMessage::Other => SessionMove::Continue,
        SessionMessage::Failed => SessionMove::End,
    }
}

/// A start event that waits for its runtime.
#[derive(Debug, PartialEq, Eq)]
pub struct PendingEvent {
    /// Public key of the agent.
    pub pubkey: String,
    /// Relay of the runtime.
    pub relay_url: String,
    /// JSON text of the event.
    pub raw: String,
}

/// The pending events by agent and relay.
pub open spec fn pending_pairs(s: Seq<PendingEvent>) -> Seq<((Seq<char>, Seq<char>), Seq<char>)> {
    s.map_values(|e: PendingEvent| ((e.pubkey@, e.relay_url@), e.raw@))
}

/// The start events that wait for their runtimes, one per agent and relay.
#[derive(Debug)]
pub struct PendingEvents {
    events: Vec<PendingEvent>,
}

impl View for PendingEvents {
    type V = Map<(Seq<char>, Seq<char>), Seq<char>>;

    closed spec fn view(&self) -> Map<(Seq<char>, Seq<char>), Seq<char>> {
        pairs_map(pending_pairs(self.events@))
    }
}

impl PendingEvents {
    #[verifier::type_invariant]
    spec fn one_per_runtime(self) -> bool {
        keys_distinct(pending_pairs(self.events@))
    }

    /// No event waits.
    pub fn new() -> (res: Self)
        ensures
            res@ == Map::<(Seq<char>, Seq<char>), Seq<char>>::empty(),
    {
        let events: Vec<PendingEvent> = Vec::new();
        assert(pending_pairs(events@) =~= Seq::empty());
        PendingEvents { events }
    }

    fn find(&self, pubkey: &str, relay_url: &str) -> (res: Option<usize>)
        ensures
            match res {
                Some(i) => i < self.events@.len() && self@.contains_key((pubkey@, relay_url@))
                    && self@[(pubkey@, relay_url@)] == self.events@[i as int].raw@,
                None => !self@.contains_key((pubkey@, relay_url@)),
            },
    {
        proof {
            use_type_invariant(&*self);
        }
        let ghost pairs = pending_pairs(self.events@);
        let ghost key = (pubkey@, relay_url@);
        proof {
            lemma_pairs_map(pairs);
        }
        let mut i: usize = 0;
        while i < self.events.len()
            invariant
                i <= self.events.len(),
                key == (pubkey@, relay_url@),
                pairs == pending_pairs(self.events@),
                self@ == pairs_map(pairs),
                forall|j: int| 0 <= j < i ==> (#[trigger] pairs[j]).0 != key,
                forall|j: int|
                    0 <= j < pairs.len() ==> pairs_map(pairs).contains_key((#[trigger] pairs[j]).0)
                        && pairs_map(pairs)[pairs[j].0] == pairs[j].1,
            decreases self.events.len() - i,
        {
            let event = &self.events[i];
            assert(pairs[i as int] == ((event.pubkey@, event.relay_url@), event.raw@));
            if str_eq(event.pubkey.as_str(), pubkey) && str_eq(event.relay_url.as_str(), relay_url) {
                return Some(i);
            }
            i = i + 1;
        }
        None
    }

    /// The event that waits for a runtime, if one does.
    pub fn get(&self, pubkey: &str, relay_url: &str) -> (res: Option<&str>)
        ensures
            match res {
                Some(raw) => self@.contains_key((pubkey@, relay_url@)) && self@[(
                    pubkey@,
                    relay_url@,
                )] == raw@,
                None => !self@.contains_key((pubkey@, relay_url@)),
            },
    {
        match self.find(pubkey, relay_url) {
            Some(i) => Some(self.events[i].raw.as_str()),
            None => None,
        }
    }

    /// Keeps an event for a runtime, unless one waits for it already.
    pub fn or_insert(&mut self, pubkey: &str, relay_url: &str, raw: String)
        ensures
            final(self)@ == if old(self)@.contains_key((pubkey@, relay_url@)) {
                old(self)@
            } else {
                old(self)@.insert((pubkey@, relay_url@), raw@)
            },
    {
        proof {
            use_type_invariant(&*self);
        }
        if self.find(pubkey, relay_url).is_some() {
            return;
        }
        let ghost pairs = pending_pairs(self.events@);
        let ghost pair = ((pubkey@, relay_url@), raw@);
        proof {
            lemma_pairs_push(pairs, pair);
        }
        let mut events: Vec<PendingEvent> = Vec::new();
        assert(pending_pairs(events@) =~= Seq::empty());
        std::mem::swap(&mut events, &mut self.events);
        events.push(PendingEvent { pubkey: pubkey.to_owned(), relay_url: relay_url.to_owned(), raw });
        assert(pending_pairs(events@) =~= pairs.push(pair));
        self.events = events;
    }
}

/// An accepted event is verified, is signed by the owner that its `p` tag
/// names, and asks for a valid transfer of this agent to this instance whose
/// source still holds the authority.
pub proof fn law_accepted_start_events_are_for_this_target(
    event: EventView,
    envelope: Result<TransferCoordinatorEnvelope, String>,
    agent: Seq<char>,
    local: Seq<char>,
    coordinator_kind: u32,
)
    requires
        event_refusal(
            event,
            event_verification(event),
            envelope,
            agent,
            local,
            coordinator_kind,
        ) is None,
    ensures
        event_verification(event) is Ok,
        event.kind == coordinator_kind,
        signed_by_tagged_owner(event),
        addressed_to(event.tags, agent),
        envelope is Ok,
        is_start_request(envelope->Ok_0.message),
        ({
            let record = envelope->Ok_0.message->request->transfer@;
            &&& well_formed(record)
            &&& record.agent_pubkey == agent
            &&& record.target.instance_id == local
            &&& record.phase is Preparing
            &&& record.active_executor == Some(record.source)
        }),
{
}

/// A start event that the relay routes reaches its target: for the agent that
/// it is routed to, both the desktop that the valid new record names and the
/// runtime that it then starts accept the event.
pub proof fn law_routed_start_events_are_accepted_by_the_target(
    event: EventView,
    envelope: TransferCoordinatorEnvelope,
    coordinator_kind: u32,
)
    requires
        event.kind == coordinator_kind,
        event_verification(event) is Ok,
        route_of(event, envelope.message) is Ok,
        is_start_request(envelope.message),
        well_formed(envelope.message->request->transfer@),
        envelope.message->request->transfer@.phase is Preparing,
    ensures
        event_refusal(
            event,
            event_verification(event),
            Ok(envelope),
            message_agent(envelope.message),
            envelope.message->request->transfer@.target.instance_id,
            coordinator_kind,
        ) is None,
        bootstrap_refusal(
            event,
            event_verification(event),
            Ok(envelope),
            message_agent(envelope.message),
            coordinator_kind,
        ) is None,
{
    lemma_tag_names_differ();
    let route = route_of(event, envelope.message)->Ok_0;
    law_routed_events_are_signed_by_their_sender(event, envelope.message);
    let tags = event.tags;
    let i = choose|i: int|
        0 <= i < 2 && tag_named(#[trigger] tags[i], "p"@) && names_key(tags[i][1], route.owner)
            && tag_named(tags[1 - i], "agent"@) && names_key(tags[1 - i][1], route.agent);
    assert(tag_named(tags[0], "p"@) || tag_named(tags[0], "agent"@));
    assert(tag_named(tags[1], "p"@) || tag_named(tags[1], "agent"@));
    assert(tags[1 - i][1] == message_agent(envelope.message));
    assert(addressed_to(tags, message_agent(envelope.message)));
    assert(signed_by_tagged_owner(event));
    law_bootstrap_is_as_strict_as_the_relay(
        event,
        event_verification(event),
        Ok(envelope),
        message_agent(envelope.message),
        coordinator_kind,
    );
}

/// However often a worker fails, its delay stays in bounds, and a connection
/// brings it back to the first delay.
pub proof fn law_retry_delay_is_bounded(pace: RetryPace, event: WorkerEvent)
    requires
        retry_fits(pace),
    ensures
        retry_fits(worker_move(pace, event).1),
        event is Connected ==> worker_move(pace, event).1.delay_secs == RETRY_BASE_SECS,
        worker_move(pace, event).0 is Wait ==> worker_move(pace, event).0->secs == pace.delay_secs,
        worker_move(pace, event).0 is Stop <==> event is Cancelled || event is AgentMissing,
{
}

/// A start event is accepted exactly if it is of the coordinator kind and
/// verified, its tags are one `p` tag for its signer and one `agent` tag for this
/// agent, and it asks for a valid transfer, in preparation, of this agent to this
/// instance.
pub proof fn law_start_events_for_this_target_are_accepted(
    event: EventView,
    verification: Result<(), Seq<char>>,
    envelope: Result<TransferCoordinatorEnvelope, String>,
    agent: Seq<char>,
    local: Seq<char>,
    coordinator_kind: u32,
)
    ensures
        event_refusal(event, verification, envelope, agent, local, coordinator_kind) is None <==> {
            &&& event.kind == coordinator_kind
            &&& verification is Ok
            &&& event.tags == seq![
                seq!["p"@, lower_hex(event.pubkey)],
                seq!["agent"@, agent],
            ] || event.tags == seq![seq!["agent"@, agent], seq!["p"@, lower_hex(event.pubkey)]]
            &&& envelope is Ok
            &&& envelope->Ok_0.message is OwnerRequest
            &&& envelope->Ok_0.message->request is Start
            &&& record_fault(envelope->Ok_0.message->request->transfer@) is None
            &&& envelope->Ok_0.message->request->transfer.agent_pubkey@ == agent
            &&& envelope->Ok_0.message->request->transfer.target.instance_id@ == local
            &&& envelope->Ok_0.message->request->transfer.phase is Preparing
        },
{
    lemma_tag_names_differ();
    let tags = event.tags;
    let owner = lower_hex(event.pubkey);
    let forward = seq![seq!["p"@, owner], seq!["agent"@, agent]];
    let backward = seq![seq!["agent"@, agent], seq!["p"@, owner]];
    if pair_tags_fit(tags) && addressed_to(tags, agent) && signed_by_tagged_owner(event) {
        let i = choose|i: int|
            0 <= i < 2 && tag_named(#[trigger] tags[i], "agent"@) && tags[i][1] == agent;
        let j = choose|j: int|
            0 <= j < tags.len() && tag_named(#[trigger] tags[j], "p"@) && tags[j][1] == owner;
        assert(i != j);
        assert(tags[i] =~= seq!["agent"@, agent]);
        assert(tags[j] =~= seq!["p"@, owner]);
        if j == 0 {
            assert(tags =~= forward);
        } else {
            assert(tags =~= backward);
        }
    }
    if tags == forward || tags == backward {
        assert(tags[0][0] != tags[1][0]);
        assert(tags[0].len() == 2 && tags[1].len() == 2);
        if tags == forward {
            assert(tag_named(tags[0], "p"@) && tags[0][1] == owner);
            assert(tag_named(tags[1], "agent"@) && tags[1][1] == agent);
        } else {
            assert(tag_named(tags[1], "p"@) && tags[1][1] == owner);
            assert(tag_named(tags[0], "agent"@) && tags[0][1] == agent);
        }
        assert(pair_tags_fit(tags));
        assert(addressed_to(tags, agent));
        assert(signed_by_tagged_owner(event));
    }
}

/// A start event is refused for the first thing that is wrong with it, and the
/// refusal names it.
pub proof fn law_start_event_refusals_name_the_fault(
    event: EventView,
    verification: Result<(), Seq<char>>,
    envelope: Result<TransferCoordinatorEnvelope, String>,
    agent: Seq<char>,
    local: Seq<char>,
    coordinator_kind: u32,
)
    ensures
        ({
            let refusal = event_refusal(
                event,
                verification,
                envelope,
                agent,
                local,
                coordinator_kind,
            );
            &&& event.kind != coordinator_kind ==> refusal == Some(
                "event kind is not the transfer coordinator kind"@,
            )
            &&& event.kind == coordinator_kind && verification is Err ==> refusal == Some(
                "signature verification failed: "@ + verification->Err_0,
            )
            &&& event.kind == coordinator_kind && verification is Ok ==> {
                &&& !pair_tags_fit(event.tags) ==> refusal == Some(
                    "routing tags are not the canonical p/agent pair"@,
                )
                &&& pair_tags_fit(event.tags) && !addressed_to(event.tags, agent) ==> refusal
                    == Some("event is not addressed to this agent"@)
                &&& pair_tags_fit(event.tags) && addressed_to(event.tags, agent)
                    && !signed_by_tagged_owner(event) ==> refusal == Some(
                    "owner routing tag does not match event signer"@,
                )
                &&& pair_tags_fit(event.tags) && addressed_to(event.tags, agent)
                    && signed_by_tagged_owner(event) ==> refusal == envelope_refusal(
                    envelope,
                    agent,
                    local,
                )
            }
            &&& envelope is Err ==> envelope_refusal(envelope, agent, local) == Some(
                "transfer envelope is invalid: "@ + envelope->Err_0@,
            )
            &&& envelope is Ok && !(envelope->Ok_0.message is OwnerRequest
                && envelope->Ok_0.message->request is Start) ==> envelope_refusal(
                envelope,
                agent,
                local,
            ) == Some("event is not an owner-start request"@)
            &&& envelope is Ok && envelope->Ok_0.message is OwnerRequest
                && envelope->Ok_0.message->request is Start ==> envelope_refusal(
                envelope,
                agent,
                local,
            ) == start_refusal(envelope->Ok_0.message->request->transfer@, agent, local)
        }),
{
}

/// Tags fit exactly if each is a `p` or `agent` tag of two values and neither
/// name occurs twice; they address an agent exactly if there are two of them and
/// one is its `agent` tag.
pub proof fn law_pair_tags(tags: Seq<Seq<Seq<char>>>, agent: Seq<char>)
    ensures
        pair_tags_fit(tags) <==> {
            &&& forall|i: int|
                0 <= i < tags.len() ==> (#[trigger] tags[i]).len() == 2 && (tags[i][0] == "p"@
                    || tags[i][0] == "agent"@)
            &&& forall|i: int, j: int|
                0 <= i < j < tags.len() ==> (#[trigger] tags[i])[0] != (#[trigger] tags[j])[0]
        },
        addressed_to(tags, agent) <==> tags.len() == 2 && ((tags[0].len() == 2 && tags[0][0]
            == "agent"@ && tags[0][1] == agent) || (tags[1].len() == 2 && tags[1][0] == "agent"@
            && tags[1][1] == agent)),
{
    assert forall|i: int| 0 <= i < tags.len() implies (tag_named(#[trigger] tags[i], "p"@)
        || tag_named(tags[i], "agent"@)) == (tags[i].len() == 2 && (tags[i][0] == "p"@
        || tags[i][0] == "agent"@)) by {}
    if tags.len() == 2 {
        assert(tag_named(tags[0], "agent"@) <==> tags[0].len() == 2 && tags[0][0] == "agent"@);
        assert(tag_named(tags[1], "agent"@) <==> tags[1].len() == 2 && tags[1][0] == "agent"@);
    }
}

/// A start record is accepted exactly if it is valid, of this agent, for this
/// instance, and in preparation; a refusal names the first of these that fails.
pub proof fn law_start_records_are_for_this_target(
    record: RecordView,
    agent: Seq<char>,
    local: Seq<char>,
)
    ensures
        ({
            let refusal = start_refusal(record, agent, local);
            let valid = record_fault(record) is None;
            let own = valid && record.agent_pubkey == agent;
            let here = own && record.target.instance_id == local;
            &&& refusal is None <==> here && record.phase is Preparing
            &&& !valid ==> refusal == Some(
                "transfer record is invalid: "@ + error_text(record_fault(record)->0),
            )
            &&& valid && !own ==> refusal == Some("transfer record targets another agent"@)
            &&& own && !here ==> refusal == Some("transfer target is another Desktop instance"@)
            &&& here && !(record.phase is Preparing) ==> refusal == Some(
                "owner-start transfer is not in preparing phase"@,
            )
        }),
{
}

/// A saved secret key is used for an agent exactly if it belongs to the key that
/// names the agent; the message of the parser is kept.
pub proof fn law_only_the_key_of_the_agent_is_used(
    parsed: Result<Seq<u8>, Seq<char>>,
    pubkey: Seq<char>,
)
    ensures
        key_verdict(parsed, pubkey) is Usable <==> parsed is Ok && lower_hex(parsed->Ok_0) == pubkey,
        key_verdict(parsed, pubkey) is Mismatch <==> parsed is Ok && lower_hex(parsed->Ok_0)
            != pubkey,
        parsed is Err ==> key_verdict(parsed, pubkey) == KeyVerdictView::Invalid(parsed->Err_0),
{
}

/// A worker that fails waits for its delay, which doubles up to thirty seconds; a
/// connection brings it back to one second and leads to the subscription; a
/// failed subscription leaves it alone; and only a cancellation or a missing
/// agent ends the worker.
pub proof fn law_failures_slow_the_worker_down(pace: RetryPace, event: WorkerEvent)
    requires
        1 <= pace.delay_secs <= 30,
    ensures
        ({
            let (action, next) = worker_move(pace, event);
            &&& event is Cancelled || event is AgentMissing ==> action is Stop
            &&& event is Connected ==> action is Subscribe && next.delay_secs == 1
            &&& event is KeyRejected || event is ConnectFailed || event is SessionEnded
                || event is SubscribeFailed ==> action == (WorkerMove::Wait {
                secs: pace.delay_secs,
            })
            &&& event is KeyRejected || event is ConnectFailed || event is SessionEnded ==> {
                &&& pace.delay_secs <= 15 ==> next.delay_secs == 2 * pace.delay_secs
                &&& pace.delay_secs >= 15 ==> next.delay_secs == 30
            }
            &&& event is SubscribeFailed ==> next.delay_secs == pace.delay_secs
        }),
        retry_fits(pace),
{
}

/// An event frame is handled under whatever subscription it comes; a session ends
/// when its connection fails or its own subscription is closed, and with nothing
/// else; only a cancellation ends the worker.
pub proof fn law_sessions_end_with_their_subscription(message: SessionMessage, own: Seq<char>)
    ensures
        session_move(message, own) is HandleEvent <==> message is Event,
        session_move(message, own) is Stop <==> message is Cancelled,
        session_move(message, own) is End <==> message is Failed || (message is Closed
            && message->subscription_id@ == own),
        session_move(message, own) is Continue <==> message is Other || (message is Closed
            && message->subscription_id@ != own),
{
}

/// The workers are compared with the saved agents every five seconds, and a
/// message of the relay is waited for as long as the longest delay.
pub proof fn law_worker_times()
    ensures
        RECONCILE_INTERVAL_SECS == 5,
        READ_TIMEOUT_SECS == 30,
        READ_TIMEOUT_SECS == RETRY_MAX_SECS,
        RETRY_BASE_SECS == 1,
{
}

/// The view of a verdict shows its kind and the message of the parser.
pub proof fn law_key_verdicts_are_shown(verdict: KeyVerdict)
    ensures
        verdict is Usable <==> verdict@ is Usable,
        verdict is Mismatch <==> verdict@ is Mismatch,
        verdict matches KeyVerdict::Invalid { error } ==> verdict@ == KeyVerdictView::Invalid(error@),
{
}

} // verus!
