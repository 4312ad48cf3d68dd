//! Handling of one signed coordinator event, from its arrival to its answer.
//!
//! The event is verified, has to be fresh, has to decode, and has to be routed
//! to a registered owner before its message goes to the coordinator. Whatever
//! happens, the sender gets one answer in an `OK` frame. The lookups in between
//! are steps that the caller performs.

use vstd::prelude::*;

use crate::coordinator::{
    map_coordinator_error, owner_view, rejected_response, rejection_of, CoordinatorErrorView,
    TransferCoordinatorError,
};
use crate::coordinator_route::{coordinator_route, route_of, CoordinatorRoute, RouteView};
use crate::keys::CommunityId;
use crate::signed_event::{event_verification, EventView, SignedEvent};
use crate::text::join2;
use crate::transfer_store::{DbError, DbErrorView};
use crate::wire::{
    envelope_view, wire_message_of, ResponseView, TransferCoordinatorEnvelope,
    TransferCoordinatorMessage, TransferOwnerRequest, TransferWireErrorCode, TransferWireMessage, TransferWireResponse,
};

verus! {

/// Largest distance, in seconds, between an event's time and the clock.
pub const FRESHNESS_SECS: u64 = 300;

/// Subscription id under which a start request is delivered to its target.
pub const COORDINATOR_DELIVERY_SUB_ID: &'static str = "agent-transfer-coordinator";

/// How the verification of an event ended.
#[derive(Debug, PartialEq, Eq)]
pub enum Verification {
    /// The id and the signature are right.
    Verified,
    /// The verification refused the event with this message.
    Refused(String),
    /// The verification did not come to an end.
    Aborted,
}

/// The content of a [`Verification`].
pub enum VerificationView {
    Verified,
    Refused(Seq<char>),
    Aborted,
}

impl View for Verification {
    type V = VerificationView;

    open spec fn view(&self) -> VerificationView {
        match *self {
            Verification::Verified => VerificationView::Verified,
            Verification::Refused(text) => VerificationView::Refused(text@),
            Verification::Aborted => VerificationView::Aborted,
        }
    }
}

/// How the verification of an event ends, unless it is aborted.
pub open spec fn verification_of(event: EventView) -> VerificationView {
    match event_verification(event) {
        Ok(_) => VerificationView::Verified,
        Err(text) => VerificationView::Refused(text),
    }
}

/// Verifies the id and the signature of an event.
pub fn verify_coordinator_event(event: &SignedEvent) -> (res: Verification)
    ensures
        res@ == verification_of(event@),
{
    match event.verify() {
        Ok(()) => Verification::Verified,
        Err(text) => Verification::Refused(text),
    }
}

/// What the sender of an event is answered.
#[derive(Debug, PartialEq, Eq)]
pub enum Answer {
    /// A refusal or failure in plain text.
    Refusal {
        /// The text of the `OK` frame.
        message: String,
    },
    /// A response of the coordinator.
    Response {
        /// Whether the request was accepted.
        accepted: bool,
        /// The response to serialize.
        response: TransferWireResponse,
    },
}

/// The content of an [`Answer`].
pub enum AnswerView {
    Refusal(Seq<char>),
    Response { accepted: bool, response: ResponseView },
}

impl View for Answer {
    type V = AnswerView;

    open spec fn view(&self) -> AnswerView {
        match *self {
            Answer::Refusal { message } => AnswerView::Refusal(message@),
            Answer::Response { accepted, response } => AnswerView::Response {
                accepted,
                response: response@,
            },
        }
    }
}

/// The step that the handling of an event has reached.
#[derive(Debug, PartialEq, Eq)]
pub enum HandlerStep {
    /// Look up whether the routed owner is registered for the routed agent.
    AwaitOwner {
        /// Community of the connection.
        community_id: CommunityId,
        /// Signer of the event.
        actor: [u8; 32],
        /// Owner and agent of the event.
        route: CoordinatorRoute,
        /// The decoded envelope.
        envelope: TransferCoordinatorEnvelope,
    },
    /// Dispatch the message under the signer of the event.
    AwaitDispatch {
        /// Community of the connection.
        community_id: CommunityId,
        /// Signer of the event.
        actor: [u8; 32],
        /// Key of the agent.
        agent: [u8; 32],
        /// Whether the event goes to the target once it is accepted.
        deliver: bool,
        /// The message to dispatch.
        message: TransferWireMessage,
    },
    /// Deliver the event to the connections of the agent, then answer.
    DeliverThenAnswer {
        /// Community of the connections.
        community_id: CommunityId,
        /// Key of the agent.
        agent: [u8; 32],
        /// The answer.
        answer: Answer,
    },
    /// Answer.
    Answered(Answer),
}

/// The content of a [`HandlerStep`].
pub enum HandlerView {
    AwaitOwner {
        community_id: CommunityId,
        actor: Seq<u8>,
        route: RouteView,
        envelope: TransferCoordinatorEnvelope,
    },
    AwaitDispatch {
        community_id: CommunityId,
        actor: Seq<u8>,
        agent: Seq<u8>,
        deliver: bool,
        message: TransferWireMessage,
    },
    DeliverThenAnswer { community_id: CommunityId, agent: Seq<u8>, answer: AnswerView },
    Answered(AnswerView),
}

impl View for HandlerStep {
    type V = HandlerView;

    open spec fn view(&self) -> HandlerView {
        match *self {
            HandlerStep::AwaitOwner {
                community_id,
                actor,
                route,
                envelope,
            } => HandlerView::AwaitOwner { community_id, actor: actor@, route: route@, envelope },
            HandlerStep::AwaitDispatch {
                community_id,
                actor,
                agent,
                deliver,
                message,
            } => HandlerView::AwaitDispatch {
                community_id,
                actor: actor@,
                agent: agent@,
                deliver,
                message,
            },
            HandlerStep::DeliverThenAnswer {
                community_id,
                agent,
                answer,
            } => HandlerView::DeliverThenAnswer { community_id, agent: agent@, answer: answer@ },
            HandlerStep::Answered(answer) => HandlerView::Answered(answer@),
        }
    }
}

/// The time of an event as a signed number of seconds, of which a time of 2^63
/// or more reads as a negative one.
pub open spec fn event_seconds(created_at: u64) -> int {
    if created_at <= i64::MAX {
        created_at as int
    } else {
        created_at - 0x1_0000_0000_0000_0000
    }
}

/// The event is at most five minutes older or younger than the clock, where a
/// time of 2^63 or more is read as negative, that is before the Unix epoch.
pub open spec fn is_fresh(created_at: u64, now: i64) -> bool {
    -FRESHNESS_SECS <= event_seconds(created_at) - now <= FRESHNESS_SECS
}

/// Whether an event of this time is fresh.
pub fn fresh(created_at: u64, now: i64) -> (res: bool)
    ensures
        res == is_fresh(created_at, now),
{
    assert(created_at <= 0x7fff_ffff_ffff_ffffu64 ==> (created_at as i64) == created_at)
        by (bit_vector);
    assert(created_at > 0x7fff_ffff_ffff_ffffu64 ==> (created_at as i64) == created_at
        - 0x1_0000_0000_0000_0000) by (bit_vector);
    let event_ts: i64 = #[verifier::truncate]
    (created_at as i64);
    let distance: i128 = event_ts as i128 - now as i128;
    -(FRESHNESS_SECS as i128) <= distance && distance <= FRESHNESS_SECS as i128
}

/// The message of a start request goes to the target runtime.
pub open spec fn is_start_request(message: TransferCoordinatorMessage) -> bool {
    message is OwnerRequest && message->request is Start
}

/// The first step of handling an event.
pub open spec fn admission(
    event: EventView,
    community_id: CommunityId,
    verification: VerificationView,
    now: i64,
    envelope: Result<TransferCoordinatorEnvelope, Seq<char>>,
) -> HandlerView {
    match verification {
        VerificationView::Aborted => HandlerView::Answered(
            AnswerView::Refusal("error: internal error"@),
        ),
        VerificationView::Refused(text) => HandlerView::Answered(
            AnswerView::Refusal("invalid: "@ + text),
        ),
        VerificationView::Verified => if !is_fresh(event.created_at, now) {
            HandlerView::Answered(
                AnswerView::Refusal(
                    "invalid: transfer coordinator timestamp outside ±5 minute freshness window"@,
                ),
            )
        } else {
            match envelope {
                Err(text) => HandlerView::Answered(
                    AnswerView::Refusal("invalid: transfer coordinator payload: "@ + text),
                ),
                Ok(envelope) => match route_of(event, envelope.message) {
                    Err(text) => HandlerView::Answered(AnswerView::Refusal("invalid: "@ + text)),
                    Ok(route) => HandlerView::AwaitOwner {
                        community_id,
                        actor: event.pubkey,
                        route,
                        envelope,
                    },
                },
            }
        },
    }
}

/// Takes a signed coordinator event in that came over a connection of the
/// community.
///
/// `verification` is how its verification ended, `now` the clock in Unix
/// seconds, and `envelope` the decoded content or the message of the decoder.
pub fn handle_coordinator_event(
    event: &SignedEvent,
    community_id: CommunityId,
    verification: Verification,
    now: i64,
    envelope: Result<TransferCoordinatorEnvelope, String>,
) -> (res: HandlerStep)
    ensures
        res@ == admission(event@, community_id, verification@, now, envelope_view(envelope)),
{
    match verification {
        Verification::Verified => {},
        Verification::Refused(text) => {
            return HandlerStep::Answered(
                Answer::Refusal { message: join2("invalid: ", text.as_str()) },
            );
        },
        Verification::Aborted => {
            return HandlerStep::Answered(
                Answer::Refusal { message: "error: internal error".to_owned() },
            );
        },
    }
    if !fresh(event.created_at, now) {
        return HandlerStep::Answered(
            Answer::Refusal {
                message:
                    "invalid: transfer coordinator timestamp outside ±5 minute freshness window".to_owned(),
            },
        );
    }
    let envelope = match envelope {
        Ok(envelope) => envelope,
        Err(text) => {
            return HandlerStep::Answered(
                Answer::Refusal {
                    message: join2("invalid: transfer coordinator payload: ", text.as_str()),
                },
            );
        },
    };
    match coordinator_route(event, &envelope) {
        Ok(route) => HandlerStep::AwaitOwner {
            community_id,
            actor: event.pubkey,
            route,
            envelope,
        },
        Err(text) => HandlerStep::Answered(
            Answer::Refusal { message: join2("invalid: ", text.as_str()) },
        ),
    }
}

/// The step after the lookup of the routed owner.
pub open spec fn after_lookup(
    community_id: CommunityId,
    actor: Seq<u8>,
    route: RouteView,
    message: TransferCoordinatorMessage,
    registered: Result<bool, DbErrorView>,
) -> HandlerView {
    match registered {
        Ok(true) => HandlerView::AwaitDispatch {
            community_id,
            actor,
            agent: route.agent,
            deliver: is_start_request(message),
            message: wire_message_of(message),
        },
        Ok(false) => HandlerView::Answered(
            AnswerView::Response {
                accepted: false,
                response: ResponseView::Rejected {
                    code: TransferWireErrorCode::Unauthorized,
                    detail: "the signed owner is not registered for this agent"@,
                },
            },
        ),
        Err(_) => HandlerView::Answered(AnswerView::Refusal("error: internal server error"@)),
    }
}

/// Continues with whether the routed owner is registered for the agent.
pub fn owner_looked_up(
    community_id: CommunityId,
    actor: [u8; 32],
    route: CoordinatorRoute,
    envelope: TransferCoordinatorEnvelope,
    registered: Result<bool, DbError>,
) -> (res: HandlerStep)
    ensures
        res@ == after_lookup(
            community_id,
            actor@,
            route@,
            envelope.message,
            owner_view(registered),
        ),
{
    match registered {
        Ok(true) => {
            let deliver = match &envelope.message {
                TransferCoordinatorMessage::OwnerRequest { request } => match request {
                    TransferOwnerRequest::Start { .. } => true,
                    TransferOwnerRequest::Status { .. } => false,
                },
                TransferCoordinatorMessage::ExecutorCommand { .. } => false,
            };
            HandlerStep::AwaitDispatch {
                community_id,
                actor,
                agent: route.agent,
                deliver,
                message: envelope.into_wire_message(),
            }
        },
        Ok(false) => HandlerStep::Answered(
            Answer::Response {
                accepted: false,
                response: rejected_response(
                    TransferWireErrorCode::Unauthorized,
                    "the signed owner is not registered for this agent",
                ),
            },
        ),
        Err(_) => HandlerStep::Answered(
            Answer::Refusal { message: "error: internal server error".to_owned() },
        ),
    }
}

/// The view of what the coordinator returned.
pub open spec fn dispatched_view(
    result: Result<TransferWireResponse, TransferCoordinatorError>,
) -> Result<ResponseView, CoordinatorErrorView> {
    match result {
        Ok(response) => Ok(response@),
        Err(error) => Err(error@),
    }
}

/// The step after the coordinator has returned.
pub open spec fn after_dispatch(
    community_id: CommunityId,
    agent: Seq<u8>,
    deliver: bool,
    result: Result<ResponseView, CoordinatorErrorView>,
) -> HandlerView {
    match result {
        Ok(response) => {
            let answer = AnswerView::Response { accepted: true, response };
            if deliver {
                HandlerView::DeliverThenAnswer { community_id, agent, answer }
            } else {
                HandlerView::Answered(answer)
            }
        },
        Err(error) => HandlerView::Answered(
            match rejection_of(error) {
                Some(response) => AnswerView::Response { accepted: false, response },
                None => AnswerView::Refusal("error: internal server error"@),
            },
        ),
    }
}

/// Continues with what the coordinator returned.
pub fn message_dispatched(
    community_id: CommunityId,
    agent: [u8; 32],
    deliver: bool,
    result: Result<TransferWireResponse, TransferCoordinatorError>,
) -> (res: HandlerStep)
    ensures
        res@ == after_dispatch(community_id, agent@, deliver, dispatched_view(result)),
{
    match result {
        Ok(response) => {
            let answer = Answer::Response { accepted: true, response };
            if deliver {
                HandlerStep::DeliverThenAnswer { community_id, agent, answer }
            } else {
                HandlerStep::Answered(answer)
            }
        },
        Err(error) => match map_coordinator_error(error) {
            Some(response) => HandlerStep::Answered(
                Answer::Response { accepted: false, response },
            ),
            None => HandlerStep::Answered(
                Answer::Refusal { message: "error: internal server error".to_owned() },
            ),
        },
    }
}

/// The `OK` frame that answers an event.
#[derive(Debug, PartialEq, Eq)]
pub struct OkFrame {
    /// Id of the event that is answered.
    pub event_id: String,
    /// Whether the request was accepted.
    pub accepted: bool,
    /// The message of the frame.
    pub message: String,
}

/// The frame for a refusal or failure in plain text.
pub fn refusal_frame(event_id_hex: &str, message: String) -> (res: OkFrame)
    ensures
        res.event_id@ == event_id_hex@,
        !res.accepted,
        res.message@ == message@,
{
    OkFrame { event_id: event_id_hex.to_owned(), accepted: false, message }
}

/// The frame for a response of the coordinator; `serialized` is its JSON, or
/// the failure to write it.
pub fn send_coordinator_response(
    event_id_hex: &str,
    accepted: bool,
    serialized: Result<String, String>,
) -> (res: OkFrame)
    ensures
        res.event_id@ == event_id_hex@,
        res.accepted == accepted,
        match serialized {
            Ok(text) => res.message@ == text@,
            Err(_) => res.message@ == "error: internal server error"@,
        },
{
    let message = match serialized {
        Ok(message) => message,
        Err(_) => "error: internal server error".to_owned(),
    };
    OkFrame { event_id: event_id_hex.to_owned(), accepted, message }
}

/// A message is dispatched only for an event that was verified, is fresh, and
/// is routed by its tags and its signer, and only once the routed owner is
/// known to be registered for the routed agent; it is then dispatched under the
/// signer of the event.
pub proof fn law_only_admitted_events_are_dispatched(
    event: EventView,
    community_id: CommunityId,
    verification: VerificationView,
    now: i64,
    envelope: Result<TransferCoordinatorEnvelope, Seq<char>>,
    registered: Result<bool, DbErrorView>,
)
    ensures
        ({
            let step = admission(event, community_id, verification, now, envelope);
            ||| step is AwaitOwner
            ||| step is Answered && step->Answered_0 is Refusal
        }),
        admission(event, community_id, verification, now, envelope) is AwaitOwner ==> {
            let step = admission(event, community_id, verification, now, envelope);
            let next = after_lookup(
                community_id,
                event.pubkey,
                step->route,
                step->envelope.message,
                registered,
            );
            &&& verification is Verified
            &&& is_fresh(event.created_at, now)
            &&& envelope == Ok::<TransferCoordinatorEnvelope, Seq<char>>(step->envelope)
            &&& route_of(event, step->envelope.message) == Ok::<RouteView, Seq<char>>(step->route)
            &&& step->AwaitOwner_community_id == community_id
            &&& step->AwaitOwner_actor == event.pubkey
            &&& (next is AwaitDispatch <==> registered == Ok::<bool, DbErrorView>(true))
            &&& next is AwaitDispatch ==> next->AwaitDispatch_actor == event.pubkey
                && next->AwaitDispatch_community_id == community_id
        },
{
}

/// An event whose verification came to its end is admitted exactly if its id
/// and signature are right, it is fresh, its content decodes, and it is routed.
pub proof fn law_authentic_fresh_routed_events_are_admitted(
    event: EventView,
    community_id: CommunityId,
    now: i64,
    envelope: Result<TransferCoordinatorEnvelope, Seq<char>>,
)
    ensures
        admission(event, community_id, verification_of(event), now, envelope) is AwaitOwner <==> {
            &&& event_verification(event) is Ok
            &&& is_fresh(event.created_at, now)
            &&& envelope is Ok
            &&& route_of(event, envelope->Ok_0.message) is Ok
        },
{
}

/// An event is delivered to its target only if it is a start request that the
/// coordinator has accepted.
pub proof fn law_only_accepted_start_requests_are_delivered(
    community_id: CommunityId,
    actor: Seq<u8>,
    route: RouteView,
    message: TransferCoordinatorMessage,
    registered: Result<bool, DbErrorView>,
    result: Result<ResponseView, CoordinatorErrorView>,
)
    requires
        after_lookup(community_id, actor, route, message, registered) is AwaitDispatch,
    ensures
        ({
            let step = after_lookup(community_id, actor, route, message, registered);
            let next = after_dispatch(
                community_id,
                step->AwaitDispatch_agent,
                step->deliver,
                result,
            );
            &&& (next is DeliverThenAnswer <==> is_start_request(message) && result is Ok)
            &&& next is DeliverThenAnswer ==> next->DeliverThenAnswer_agent == route.agent
        }),
{
}

/// An event is fresh exactly if it is within 300 seconds of the clock, before or
/// after; a time of 2^63 or more stands for one that is 2^64 seconds earlier.
pub proof fn law_freshness_is_five_minutes_either_way(created_at: u64, now: i64)
    ensures
        created_at <= i64::MAX ==> (is_fresh(created_at, now) <==> created_at - now <= 300 && now
            - created_at <= 300),
        created_at > i64::MAX ==> (is_fresh(created_at, now) <==> -300 <= now + (
        0x1_0000_0000_0000_0000 - created_at) <= 300),
{
}

/// An event is refused for the first thing that is wrong with it: its signature,
/// its time, its content, or its route, and the refusal names it.
pub proof fn law_admission_refusals_name_the_fault(
    event: EventView,
    community_id: CommunityId,
    now: i64,
    envelope: Result<TransferCoordinatorEnvelope, Seq<char>>,
    text: Seq<char>,
)
    ensures
        admission(event, community_id, VerificationView::Aborted, now, envelope)
            == HandlerView::Answered(AnswerView::Refusal("error: internal error"@)),
        admission(event, community_id, VerificationView::Refused(text), now, envelope)
            == HandlerView::Answered(AnswerView::Refusal("invalid: "@ + text)),
        ({
            let step = admission(event, community_id, VerificationView::Verified, now, envelope);
            &&& !is_fresh(event.created_at, now) ==> step == HandlerView::Answered(
                AnswerView::Refusal(
                    "invalid: transfer coordinator timestamp outside ±5 minute freshness window"@,
                ),
            )
            &&& is_fresh(event.created_at, now) && envelope is Err ==> step == HandlerView::Answered(
                AnswerView::Refusal("invalid: transfer coordinator payload: "@ + envelope->Err_0),
            )
            &&& is_fresh(event.created_at, now) && envelope is Ok && route_of(
                event,
                envelope->Ok_0.message,
            ) is Err ==> step == HandlerView::Answered(
                AnswerView::Refusal(
                    "invalid: "@ + route_of(event, envelope->Ok_0.message)->Err_0,
                ),
            )
            &&& is_fresh(event.created_at, now) && envelope is Ok && route_of(
                event,
                envelope->Ok_0.message,
            ) is Ok ==> step == (HandlerView::AwaitOwner {
                community_id,
                actor: event.pubkey,
                route: route_of(event, envelope->Ok_0.message)->Ok_0,
                envelope: envelope->Ok_0,
            })
        }),
{
}

/// Verification decides between the two ways in which it can end, and keeps its
/// message.
pub proof fn law_verification_keeps_its_message(event: EventView)
    ensures
        event_verification(event) is Ok <==> verification_of(event) is Verified,
        event_verification(event) is Err ==> verification_of(event) == VerificationView::Refused(
            event_verification(event)->Err_0,
        ),
{
}

/// A registered owner's message is dispatched as it is, for the routed agent and
/// under the signer, and is delivered to the target exactly if it asks for a
/// start. An unregistered owner is told so, and of a failed lookup nothing.
pub proof fn law_registered_messages_are_dispatched(
    community_id: CommunityId,
    actor: Seq<u8>,
    route: RouteView,
    message: TransferCoordinatorMessage,
    error: DbErrorView,
)
    ensures
        ({
            let next = after_lookup(community_id, actor, route, message, Ok(true));
            &&& next is AwaitDispatch
            &&& next->AwaitDispatch_community_id == community_id
            &&& next->AwaitDispatch_actor == actor
            &&& next->AwaitDispatch_agent == route.agent
            &&& next->message == wire_message_of(message)
            &&& next->deliver <==> message is OwnerRequest && !(message->request is Status)
        }),
        after_lookup(community_id, actor, route, message, Ok(false)) == HandlerView::Answered(
            AnswerView::Response {
                accepted: false,
                response: ResponseView::Rejected {
                    code: TransferWireErrorCode::Unauthorized,
                    detail: "the signed owner is not registered for this agent"@,
                },
            },
        ),
        after_lookup(community_id, actor, route, message, Err(error)) == HandlerView::Answered(
            AnswerView::Refusal("error: internal server error"@),
        ),
{
}

/// What the coordinator returned is what is answered, as accepted; its refusal is
/// answered as not accepted, and of an internal failure nothing is told. Only an
/// accepted event is delivered, to the agent and in the community it is for.
pub proof fn law_answers_are_what_the_coordinator_returned(
    community_id: CommunityId,
    agent: Seq<u8>,
    deliver: bool,
    response: ResponseView,
    error: CoordinatorErrorView,
)
    ensures
        ({
            let answer = AnswerView::Response { accepted: true, response };
            &&& after_dispatch(community_id, agent, true, Ok(response)) == (
            HandlerView::DeliverThenAnswer { community_id, agent, answer })
            &&& after_dispatch(community_id, agent, false, Ok(response)) == HandlerView::Answered(
                answer,
            )
        }),
        rejection_of(error) is Some ==> after_dispatch(community_id, agent, deliver, Err(error))
            == HandlerView::Answered(
            AnswerView::Response { accepted: false, response: rejection_of(error)->0 },
        ),
        rejection_of(error) is None ==> after_dispatch(community_id, agent, deliver, Err(error))
            == HandlerView::Answered(AnswerView::Refusal("error: internal server error"@)),
{
}

/// A start request of a registered owner goes the whole way: the authentic,
/// fresh and routed event is dispatched with its own record under its signer,
/// and once accepted it is delivered to the connections of its agent.
pub proof fn law_start_requests_reach_their_target(
    event: EventView,
    community_id: CommunityId,
    now: i64,
    envelope: TransferCoordinatorEnvelope,
    response: ResponseView,
)
    requires
        event_verification(event) is Ok,
        event.created_at <= i64::MAX,
        event.created_at - now <= 300,
        now - event.created_at <= 300,
        route_of(event, envelope.message) is Ok,
        envelope.message is OwnerRequest,
        envelope.message->request is Start,
    ensures
        ({
            let first = admission(event, community_id, verification_of(event), now, Ok(envelope));
            let second = after_lookup(
                first->AwaitOwner_community_id,
                first->AwaitOwner_actor,
                first->route,
                first->envelope.message,
                Ok(true),
            );
            let third = after_dispatch(
                second->AwaitDispatch_community_id,
                second->AwaitDispatch_agent,
                second->deliver,
                Ok(response),
            );
            &&& second is AwaitDispatch
            &&& second->AwaitDispatch_actor == event.pubkey
            &&& second->message == (TransferWireMessage::OwnerRequest {
                request: envelope.message->request,
            })
            &&& third == (HandlerView::DeliverThenAnswer {
                community_id,
                agent: route_of(event, envelope.message)->Ok_0.agent,
                answer: AnswerView::Response { accepted: true, response },
            })
        }),
{
}

/// The views of steps, answers and results show everything that they carry.
pub proof fn law_handler_views_are_complete(
    step: HandlerStep,
    answer: Answer,
    route: CoordinatorRoute,
    text: String,
    response: TransferWireResponse,
    error: TransferCoordinatorError,
)
    ensures
        step matches HandlerStep::AwaitOwner { community_id, actor, route: routed, envelope }
            ==> step@ is AwaitOwner && step@->AwaitOwner_community_id == community_id
            && step@->AwaitOwner_actor == actor@ && step@->route == routed@ && step@->envelope
            == envelope,
        step matches HandlerStep::AwaitDispatch { community_id, actor, agent, deliver, message }
            ==> step@ is AwaitDispatch && step@->AwaitDispatch_community_id == community_id
            && step@->AwaitDispatch_actor == actor@ && step@->AwaitDispatch_agent == agent@
            && step@->deliver == deliver && step@->message == message,
        step matches HandlerStep::DeliverThenAnswer { community_id, agent, answer: reply } ==> step@
            is DeliverThenAnswer && step@->DeliverThenAnswer_community_id == community_id
            && step@->DeliverThenAnswer_agent == agent@ && step@->answer == reply@,
        step matches HandlerStep::Answered(reply) ==> step@ == HandlerView::Answered(reply@),
        answer matches Answer::Refusal { message } ==> answer@ == AnswerView::Refusal(message@),
        answer matches Answer::Response { accepted, response: told } ==> answer@ == (
        AnswerView::Response { accepted, response: told@ }),
        route@.owner == route.owner@,
        route@.agent == route.agent@,
        Verification::Verified@ is Verified,
        Verification::Refused(text)@ == VerificationView::Refused(text@),
        Verification::Aborted@ is Aborted,
        dispatched_view(Ok(response)) == Ok::<ResponseView, CoordinatorErrorView>(response@),
        dispatched_view(Err(error)) == Err::<ResponseView, CoordinatorErrorView>(error@),
        envelope_view(Err(text)) == Err::<TransferCoordinatorEnvelope, Seq<char>>(text@),
{
}

} // verus!
