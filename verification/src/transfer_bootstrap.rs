//! Admission of a transfer event that the local process supervisor hands over.
//!
//! A target runtime may start after the relay has accepted an owner's start
//! event. The supervisor then passes the event on, and it is checked here as
//! strictly as the relay checks a live one, but for its age, before it enters
//! the observer queue.

use vstd::prelude::*;

use crate::coordinator_route::{
    canonical_pair, coordinator_route, law_routed_events_are_signed_by_their_sender, message_agent,
    route_of, RouteView,
};
use crate::keys::names_key;
use crate::signed_event::{
    event_from_json, event_of_json, event_result_view, event_verification, lemma_tag_names_differ,
    tag_is, tag_named, unit_result_view, verify_event, EventView, SignedEvent,
};
use crate::text::{join2, str_eq};
use crate::wire::{envelope_view, TransferCoordinatorEnvelope};

verus! {

/// Every tag is a `p` or an `agent` tag of two values, and at most one of them
/// is an `agent` tag.
pub open spec fn routing_tags_fit(tags: Seq<Seq<Seq<char>>>) -> bool {
    &&& forall|i: int|
        0 <= i < tags.len() ==> tag_named(#[trigger] tags[i], "p"@) || tag_named(
            tags[i],
            "agent"@,
        )
    &&& forall|i: int, j: int|
        0 <= i < j < tags.len() ==> !(tag_named(#[trigger] tags[i], "agent"@) && tag_named(
            #[trigger] tags[j],
            "agent"@,
        ))
}

/// There are two tags, and one of them is the `agent` tag for `agent`.
pub open spec fn addressed_to(tags: Seq<Seq<Seq<char>>>, agent: Seq<char>) -> bool {
    tags.len() == 2 && exists|i: int|
        0 <= i < 2 && tag_named(#[trigger] tags[i], "agent"@) && tags[i][1] == agent
}

/// The message that refuses a decoded event, given how its verification ended
/// and what its content was decoded to.
pub open spec fn bootstrap_refusal(
    event: EventView,
    verification: Result<(), Seq<char>>,
    envelope: Result<TransferCoordinatorEnvelope, Seq<char>>,
    agent: Seq<char>,
    coordinator_kind: u32,
) -> Option<Seq<char>> {
    if event.kind != coordinator_kind {
        Some("transfer bootstrap event has the wrong kind"@)
    } else if verification is Err {
        Some("transfer bootstrap event signature is invalid: "@ + verification->Err_0)
    } else if !routing_tags_fit(event.tags) {
        Some("transfer bootstrap event has invalid routing tags"@)
    } else if !addressed_to(event.tags, agent) {
        Some("transfer bootstrap event is not addressed to this agent"@)
    } else {
        match envelope {
            Err(error) => Some("transfer bootstrap event has an invalid payload: "@ + error),
            Ok(envelope) => match route_of(event, envelope.message) {
                Err(text) => Some("transfer bootstrap event has an invalid route: "@ + text),
                Ok(_) => None,
            },
        }
    }
}

/// Checks a decoded event whose verification ended with `verification` and
/// whose content was decoded to `envelope`.
#[verifier::loop_isolation(false)]
pub fn check_bootstrap_event(
    event: &SignedEvent,
    verification: Result<(), String>,
    envelope: Result<TransferCoordinatorEnvelope, String>,
    agent_pubkey_hex: &str,
    coordinator_kind: u32,
) -> (res: Result<(), String>)
    ensures
        match bootstrap_refusal(
            event@,
            unit_result_view(verification),
            envelope_view(envelope),
            agent_pubkey_hex@,
            coordinator_kind,
        ) {
            Some(text) => res matches Err(message) && message@ == text,
            None => res is Ok,
        },
{
    if event.kind as u32 != coordinator_kind {
        return Err("transfer bootstrap event has the wrong kind".to_owned());
    }
    if let Err(error) = verification {
        return Err(
            join2("transfer bootstrap event signature is invalid: ", error.as_str()),
        );
    }
    let ghost tags = event@.tags;
    proof {
        lemma_tag_names_differ();
    }
    let mut agent: Option<usize> = None;
    let mut i: usize = 0;
    while i < event.tags.len()
        invariant
            tags == event@.tags,
            i <= event.tags.len(),
            forall|j: int|
                0 <= j < i ==> tag_named(#[trigger] tags[j], "p"@) || tag_named(
                    tags[j],
                    "agent"@,
                ),
            match agent {
                Some(k) => k < i && tag_named(tags[k as int], "agent"@) && forall|j: int|
                    0 <= j < i && j != k ==> !tag_named(#[trigger] tags[j], "agent"@),
                None => forall|j: int| 0 <= j < i ==> !tag_named(#[trigger] tags[j], "agent"@),
            },
        decreases event.tags.len() - i,
    {
        let tag = &event.tags[i];
        assert(tags[i as int] == tag.deep_view());
        if tag_is(tag, "agent") && agent.is_none() {
            agent = Some(i);
        } else if tag_is(tag, "p") {
        } else {
            assert(!routing_tags_fit(tags)) by {
                if tag_named(tags[i as int], "agent"@) {
                    assert(tag_named(tags[agent->0 as int], "agent"@));
                }
            }
            return Err("transfer bootstrap event has invalid routing tags".to_owned());
        }
        i = i + 1;
    }
    assert(routing_tags_fit(tags));
    let named = match agent {
        Some(k) => {
            assert(tags[k as int] == event.tags@[k as int].deep_view());
            str_eq(event.tags[k][1].as_str(), agent_pubkey_hex)
        },
        None => false,
    };
    if event.tags.len() != 2 || !named {
        return Err("transfer bootstrap event is not addressed to this agent".to_owned());
    }
    let envelope = match envelope {
        Ok(envelope) => envelope,
        Err(error) => {
            return Err(join2("transfer bootstrap event has an invalid payload: ", error.as_str()));
        },
    };
    match coordinator_route(event, &envelope) {
        Ok(_) => Ok(()),
        Err(text) => Err(join2("transfer bootstrap event has an invalid route: ", text.as_str())),
    }
}

/// The outcome of parsing a supplied event: the event, or the refusal.
pub open spec fn parse_outcome(
    raw: Seq<char>,
    envelope: Result<TransferCoordinatorEnvelope, Seq<char>>,
    agent: Seq<char>,
    coordinator_kind: u32,
) -> Result<EventView, Seq<char>> {
    match event_of_json(raw) {
        Err(error) => Err("transfer bootstrap event is invalid JSON: "@ + error),
        Ok(event) => match bootstrap_refusal(
            event,
            event_verification(event),
            envelope,
            agent,
            coordinator_kind,
        ) {
            Some(text) => Err(text),
            None => Ok(event),
        },
    }
}

/// Parses and authenticates one supplied transfer event.
///
/// `envelope` is the decoded content of the event or the message of the
/// decoder, and `coordinator_kind` the event kind that the deployment reserves
/// for transfer coordination.
pub fn parse_event(
    raw: &str,
    envelope: Result<TransferCoordinatorEnvelope, String>,
    agent_pubkey_hex: &str,
    coordinator_kind: u32,
) -> (res: Result<SignedEvent, String>)
    ensures
        event_result_view(res) == parse_outcome(
            raw@,
            envelope_view(envelope),
            agent_pubkey_hex@,
            coordinator_kind,
        ),
{
    let event = match event_from_json(raw) {
        Ok(event) => event,
        Err(error) => {
            return Err(join2("transfer bootstrap event is invalid JSON: ", error.as_str()));
        },
    };
    match check_bootstrap_event(
        &event,
        verify_event(&event),
        envelope,
        agent_pubkey_hex,
        coordinator_kind,
    ) {
        Ok(()) => Ok(event),
        Err(message) => Err(message),
    }
}

/// The boundary is as strict as the relay's: an event is accepted exactly if it
/// is of the coordinator kind, is verified, decodes, and is routed by the
/// relay's own rule to this agent. So an owner's request is signed by the tagged
/// owner, a command by the agent itself, and the message speaks of this agent.
pub proof fn law_bootstrap_is_as_strict_as_the_relay(
    event: EventView,
    verification: Result<(), Seq<char>>,
    envelope: Result<TransferCoordinatorEnvelope, Seq<char>>,
    agent: Seq<char>,
    coordinator_kind: u32,
)
    ensures
        bootstrap_refusal(event, verification, envelope, agent, coordinator_kind) is None <==> {
            &&& event.kind == coordinator_kind
            &&& verification is Ok
            &&& envelope is Ok
            &&& route_of(event, envelope->Ok_0.message) is Ok
            &&& message_agent(envelope->Ok_0.message) == agent
        },
{
    if envelope is Ok && route_of(event, envelope->Ok_0.message) is Ok {
        let message = envelope->Ok_0.message;
        let route = route_of(event, message)->Ok_0;
        let tags = event.tags;
        lemma_tag_names_differ();
        law_routed_events_are_signed_by_their_sender(event, message);
        assert(canonical_pair(tags, route));
        let i = choose|i: int|
            0 <= i < 2 && tag_named(#[trigger] tags[i], "p"@) && names_key(tags[i][1], route.owner)
                && tag_named(tags[1 - i], "agent"@) && names_key(tags[1 - i][1], route.agent);
        assert(tag_named(tags[0], "p"@) || tag_named(tags[0], "agent"@));
        assert(tag_named(tags[1], "p"@) || tag_named(tags[1], "agent"@));
        assert(tags[1 - i][1] == message_agent(message));
        assert(addressed_to(tags, agent) <==> tags[1 - i][1] == agent);
    }
}

/// An accepted event is what the text holds, is of the coordinator kind, is
/// verified, and carries in its tags the canonical pair of its owner and this
/// agent.
pub proof fn law_accepted_bootstrap_events_are_authentic(
    raw: Seq<char>,
    envelope: Result<TransferCoordinatorEnvelope, Seq<char>>,
    agent: Seq<char>,
    coordinator_kind: u32,
)
    requires
        parse_outcome(raw, envelope, agent, coordinator_kind) is Ok,
    ensures
        ({
            let event = parse_outcome(raw, envelope, agent, coordinator_kind)->Ok_0;
            let message = envelope->Ok_0.message;
            let route = route_of(event, message)->Ok_0;
            &&& event_of_json(raw) == Ok::<EventView, Seq<char>>(event)
            &&& event.kind == coordinator_kind
            &&& event_verification(event) is Ok
            &&& envelope is Ok
            &&& route_of(event, message) == Ok::<RouteView, Seq<char>>(route)
            &&& canonical_pair(event.tags, route)
            &&& names_key(agent, route.agent)
            &&& message is OwnerRequest ==> event.pubkey == route.owner
            &&& message is ExecutorCommand ==> event.pubkey == route.agent
        }),
{
    let event = parse_outcome(raw, envelope, agent, coordinator_kind)->Ok_0;
    law_bootstrap_is_as_strict_as_the_relay(
        event,
        event_verification(event),
        envelope,
        agent,
        coordinator_kind,
    );
    law_routed_events_are_signed_by_their_sender(event, envelope->Ok_0.message);
}

/// A supplied event is refused for the first thing that is wrong with it, and
/// the refusal names it.
pub proof fn law_bootstrap_refusals_name_the_fault(
    event: EventView,
    verification: Result<(), Seq<char>>,
    envelope: Result<TransferCoordinatorEnvelope, Seq<char>>,
    agent: Seq<char>,
    coordinator_kind: u32,
)
    ensures
        ({
            let tags = event.tags;
            let refusal = bootstrap_refusal(event, verification, envelope, agent, coordinator_kind);
            let named = forall|i: int|
                0 <= i < tags.len() ==> (#[trigger] tags[i]).len() == 2 && (tags[i][0] == "p"@
                    || tags[i][0] == "agent"@);
            let twice = exists|i: int, j: int|
                0 <= i < j < tags.len() && (#[trigger] tags[i]).len() == 2 && tags[i][0]
                    == "agent"@ && (#[trigger] tags[j]).len() == 2 && tags[j][0] == "agent"@;
            let addressed = tags.len() == 2 && ((tags[0][0] == "agent"@ && tags[0][1] == agent) || (
            tags[1][0] == "agent"@ && tags[1][1] == agent));
            &&& event.kind != coordinator_kind ==> refusal == Some(
                "transfer bootstrap event has the wrong kind"@,
            )
            &&& event.kind == coordinator_kind && verification is Err ==> refusal == Some(
                "transfer bootstrap event signature is invalid: "@ + verification->Err_0,
            )
            &&& event.kind == coordinator_kind && verification is Ok ==> {
                &&& !named || twice ==> refusal == Some(
                    "transfer bootstrap event has invalid routing tags"@,
                )
                &&& named && !twice && !addressed ==> refusal == Some(
                    "transfer bootstrap event is not addressed to this agent"@,
                )
                &&& named && !twice && addressed && envelope is Err ==> refusal == Some(
                    "transfer bootstrap event has an invalid payload: "@ + envelope->Err_0,
                )
                &&& named && !twice && addressed && envelope is Ok && route_of(
                    event,
                    envelope->Ok_0.message,
                ) is Err ==> refusal == Some(
                    "transfer bootstrap event has an invalid route: "@ + route_of(
                        event,
                        envelope->Ok_0.message,
                    )->Err_0,
                )
            }
        }),
{
    let tags = event.tags;
    lemma_tag_names_differ();
    if routing_tags_fit(tags) {
        assert forall|i: int| 0 <= i < tags.len() implies (#[trigger] tags[i]).len() == 2 && (
        tags[i][0] == "p"@ || tags[i][0] == "agent"@) by {
            assert(tag_named(tags[i], "p"@) || tag_named(tags[i], "agent"@));
        }
        assert forall|i: int, j: int| 0 <= i < j < tags.len() implies !((
        #[trigger] tags[i]).len() == 2 && tags[i][0] == "agent"@ && (#[trigger] tags[j]).len() == 2
            && tags[j][0] == "agent"@) by {
            assert(!(tag_named(tags[i], "agent"@) && tag_named(tags[j], "agent"@)));
        }
        if tags.len() == 2 {
            assert(tag_named(tags[0], "agent"@) <==> tags[0][0] == "agent"@);
            assert(tag_named(tags[1], "agent"@) <==> tags[1][0] == "agent"@);
        }
    }
}

/// A text is parsed into the event that it holds, or refused with the message of
/// the parser, or with the refusal of its event.
pub proof fn law_parsing_yields_the_event_of_the_text(
    raw: Seq<char>,
    envelope: Result<TransferCoordinatorEnvelope, Seq<char>>,
    agent: Seq<char>,
    coordinator_kind: u32,
)
    ensures
        event_of_json(raw) is Err ==> parse_outcome(raw, envelope, agent, coordinator_kind) == Err::<
            EventView,
            Seq<char>,
        >("transfer bootstrap event is invalid JSON: "@ + event_of_json(raw)->Err_0),
        event_of_json(raw) is Ok ==> {
            let event = event_of_json(raw)->Ok_0;
            let refusal = bootstrap_refusal(
                event,
                event_verification(event),
                envelope,
                agent,
                coordinator_kind,
            );
            &&& refusal is None ==> parse_outcome(raw, envelope, agent, coordinator_kind) == Ok::<
                EventView,
                Seq<char>,
            >(event)
            &&& refusal is Some ==> parse_outcome(raw, envelope, agent, coordinator_kind) == Err::<
                EventView,
                Seq<char>,
            >(refusal->0)
        },
{
}

} // verus!
