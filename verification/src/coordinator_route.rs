//! Routing of a signed coordinator event to its owner and its agent.

use vstd::prelude::*;

use crate::keys::{
    hex_bytes, hex_encode, is_hex_text, law_decoding_undoes_encoding, lower_hex, names_key,
    public_key_from_hex, same_bytes,
};
use crate::signed_event::{lemma_tag_names_differ, tag_named, EventView, SignedEvent};
use crate::text::{join3, str_eq};
use crate::wire::{
    TransferCoordinatorEnvelope, TransferCoordinatorMessage, TransferOwnerRequest,
};

verus! {

/// The two keys that a coordinator event is routed by.
#[derive(Debug, Clone, Copy, PartialEq, Eq)]
pub struct CoordinatorRoute {
    /// Key of the tagged owner.
    pub owner: [u8; 32],
    /// Key of the tagged agent.
    pub agent: [u8; 32],
}

/// The content of a [`CoordinatorRoute`].
pub struct RouteView {
    pub owner: Seq<u8>,
    pub agent: Seq<u8>,
}

impl View for CoordinatorRoute {
    type V = RouteView;

    open spec fn view(&self) -> RouteView {
        RouteView { owner: self.owner@, agent: self.agent@ }
    }
}

/// The view of a routing result.
pub open spec fn route_result_view(res: Result<CoordinatorRoute, String>) -> Result<
    RouteView,
    Seq<char>,
> {
    match res {
        Ok(route) => Ok(route@),
        Err(text) => Err(text@),
    }
}

/// The keys that the tags seen so far have named.
pub struct RouteSlots {
    pub owner: Option<Seq<u8>>,
    pub agent: Option<Seq<u8>>,
}

/// Whether the slot for tags named `name` is taken.
pub open spec fn slot_taken(slots: RouteSlots, name: Seq<char>) -> bool {
    if name == "p"@ {
        slots.owner is Some
    } else {
        slots.agent is Some
    }
}

/// The message that refuses a tag after the tags in `slots`.
pub open spec fn tag_refusal(slots: RouteSlots, tag: Seq<Seq<char>>) -> Option<Seq<char>> {
    if tag.len() != 2 {
        Some("transfer coordinator tags must contain exactly two values"@)
    } else if tag[0] != "p"@ && tag[0] != "agent"@ {
        Some("transfer coordinator contains an unsupported tag"@)
    } else if slot_taken(slots, tag[0]) {
        Some("transfer coordinator has duplicate `"@ + tag[0] + "` tag"@)
    } else if !(tag[1].len() == 64 && is_hex_text(tag[1])) {
        Some("transfer coordinator `"@ + tag[0] + "` tag is not a pubkey"@)
    } else if lower_hex(hex_bytes(tag[1])) != tag[1] {
        Some("transfer coordinator `"@ + tag[0] + "` tag must use lowercase canonical hex"@)
    } else {
        None
    }
}

/// The slots after an accepted tag.
pub open spec fn filled(slots: RouteSlots, tag: Seq<Seq<char>>) -> RouteSlots {
    if tag[0] == "p"@ {
        RouteSlots { owner: Some(hex_bytes(tag[1])), ..slots }
    } else {
        RouteSlots { agent: Some(hex_bytes(tag[1])), ..slots }
    }
}

/// The slots after the first `n` tags, or the message for the first bad tag.
pub open spec fn scanned(tags: Seq<Seq<Seq<char>>>, n: nat) -> Result<RouteSlots, Seq<char>>
    decreases n,
{
    if n == 0 {
        Ok(RouteSlots { owner: None, agent: None })
    } else {
        match scanned(tags, (n - 1) as nat) {
            Err(text) => Err(text),
            Ok(slots) => match tag_refusal(slots, tags[n - 1]) {
                Some(text) => Err(text),
                None => Ok(filled(slots, tags[n - 1])),
            },
        }
    }
}

/// The owner and the agent that the tags name.
pub open spec fn strict_tags(tags: Seq<Seq<Seq<char>>>) -> Result<RouteView, Seq<char>> {
    match scanned(tags, tags.len()) {
        Err(text) => Err(text),
        Ok(slots) => if slots.owner is None {
            Err("transfer coordinator is missing the `p` tag"@)
        } else if slots.agent is None {
            Err("transfer coordinator is missing the `agent` tag"@)
        } else {
            Ok(RouteView { owner: slots.owner->0, agent: slots.agent->0 })
        },
    }
}

/// The agent that a coordinator message speaks of.
pub open spec fn message_agent(message: TransferCoordinatorMessage) -> Seq<char> {
    match message {
        TransferCoordinatorMessage::OwnerRequest { request } => match request {
            TransferOwnerRequest::Start { transfer } => transfer.agent_pubkey@,
            TransferOwnerRequest::Status { agent_pubkey } => agent_pubkey@,
        },
        TransferCoordinatorMessage::ExecutorCommand { command } => command.agent_pubkey@,
    }
}

/// The route of an event that carries `message`: its tags name the owner and
/// the agent, the message speaks of that agent, and whoever may send such a
/// message has signed the event.
pub open spec fn route_of(event: EventView, message: TransferCoordinatorMessage) -> Result<
    RouteView,
    Seq<char>,
> {
    match strict_tags(event.tags) {
        Err(text) => Err(text),
        Ok(route) => if message_agent(message) != lower_hex(route.agent) {
            Err("agent tag does not match the request body"@)
        } else if message is OwnerRequest && event.pubkey != route.owner {
            Err("owner request must be signed by the tagged owner"@)
        } else if message is ExecutorCommand && event.pubkey != route.agent {
            Err("executor command must be signed by the managed agent"@)
        } else {
            Ok(route)
        },
    }
}

spec fn slots_view(owner: Option<[u8; 32]>, agent: Option<[u8; 32]>) -> RouteSlots {
    RouteSlots {
        owner: match owner {
            Some(key) => Some(key@),
            None => None,
        },
        agent: match agent {
            Some(key) => Some(key@),
            None => None,
        },
    }
}

proof fn lemma_scan_stops(tags: Seq<Seq<Seq<char>>>, n: nat, m: nat)
    requires
        n <= m,
        scanned(tags, n) is Err,
    ensures
        scanned(tags, m) == scanned(tags, n),
    decreases m,
{
    if n < m {
        lemma_scan_stops(tags, n, (m - 1) as nat);
    }
}

/// Reads the owner and the agent from the tags, and accepts nothing but one
/// canonical `p` tag and one canonical `agent` tag.
pub fn strict_coordinator_tags(event: &SignedEvent) -> (res: Result<CoordinatorRoute, String>)
    ensures
        route_result_view(res) == strict_tags(event@.tags),
{
    let ghost tags = event@.tags;
    let mut owner: Option<[u8; 32]> = None;
    let mut agent: Option<[u8; 32]> = None;
    let mut i: usize = 0;
    while i < event.tags.len()
        invariant
            tags == event@.tags,
            tags.len() == event.tags.len(),
            i <= event.tags.len(),
            scanned(tags, i as nat) == Ok::<RouteSlots, Seq<char>>(slots_view(owner, agent)),
        decreases event.tags.len() - i,
    {
        let parts = &event.tags[i];
        assert(tags[i as int] == parts.deep_view());
        proof {
            lemma_tag_names_differ();
            if tag_refusal(slots_view(owner, agent), tags[i as int]) is Some {
                lemma_scan_stops(tags, (i + 1) as nat, tags.len());
            }
        }
        if parts.len() != 2 {
            return Err("transfer coordinator tags must contain exactly two values".to_owned());
        }
        let is_owner = str_eq(parts[0].as_str(), "p");
        if !is_owner && !str_eq(parts[0].as_str(), "agent") {
            return Err("transfer coordinator contains an unsupported tag".to_owned());
        }
        if (is_owner && owner.is_some()) || (!is_owner && agent.is_some()) {
            return Err(
                join3("transfer coordinator has duplicate `", parts[0].as_str(), "` tag"),
            );
        }
        let key = match public_key_from_hex(parts[1].as_str()) {
            Some(key) => key,
            None => {
                return Err(
                    join3("transfer coordinator `", parts[0].as_str(), "` tag is not a pubkey"),
                );
            },
        };
        if !str_eq(hex_encode(&key).as_str(), parts[1].as_str()) {
            return Err(
                join3(
                    "transfer coordinator `",
                    parts[0].as_str(),
                    "` tag must use lowercase canonical hex",
                ),
            );
        }
        if is_owner {
            owner = Some(key);
        } else {
            agent = Some(key);
        }
        i = i + 1;
    }
    let owner = match owner {
        Some(owner) => owner,
        None => {
            return Err("transfer coordinator is missing the `p` tag".to_owned());
        },
    };
    let agent = match agent {
        Some(agent) => agent,
        None => {
            return Err("transfer coordinator is missing the `agent` tag".to_owned());
        },
    };
    Ok(CoordinatorRoute { owner, agent })
}

/// Routes a coordinator event by its tags, its message and its signer.
pub fn coordinator_route(event: &SignedEvent, envelope: &TransferCoordinatorEnvelope) -> (res:
    Result<CoordinatorRoute, String>)
    ensures
        route_result_view(res) == route_of(event@, envelope.message),
{
    let route = match strict_coordinator_tags(event) {
        Ok(route) => route,
        Err(text) => {
            return Err(text);
        },
    };
    let content_agent = match &envelope.message {
        TransferCoordinatorMessage::OwnerRequest { request } => match request {
            TransferOwnerRequest::Start { transfer } => &transfer.agent_pubkey,
            TransferOwnerRequest::Status { agent_pubkey } => agent_pubkey,
        },
        TransferCoordinatorMessage::ExecutorCommand { command } => &command.agent_pubkey,
    };
    if !str_eq(content_agent.as_str(), hex_encode(&route.agent).as_str()) {
        return Err("agent tag does not match the request body".to_owned());
    }
    match &envelope.message {
        TransferCoordinatorMessage::OwnerRequest { .. } => {
            if !same_bytes(event.pubkey.as_slice(), route.owner.as_slice()) {
                return Err("owner request must be signed by the tagged owner".to_owned());
            }
        },
        TransferCoordinatorMessage::ExecutorCommand { .. } => {
            if !same_bytes(event.pubkey.as_slice(), route.agent.as_slice()) {
                return Err("executor command must be signed by the managed agent".to_owned());
            }
        },
    }
    Ok(route)
}

/// The tags are one `p` tag for the owner and one `agent` tag for the agent, in
/// either order and in canonical notation.
pub open spec fn canonical_pair(tags: Seq<Seq<Seq<char>>>, route: RouteView) -> bool {
    tags.len() == 2 && exists|i: int|
        0 <= i < 2 && tag_named(#[trigger] tags[i], "p"@) && names_key(tags[i][1], route.owner)
            && tag_named(tags[1 - i], "agent"@) && names_key(tags[1 - i][1], route.agent)
}

proof fn lemma_canonical_key_text(text: Seq<char>, key: Seq<u8>)
    ensures
        names_key(text, key) <==> {
            &&& text.len() == 64
            &&& is_hex_text(text)
            &&& lower_hex(hex_bytes(text)) == text
            &&& key == hex_bytes(text)
        },
{
    if names_key(text, key) {
        law_decoding_undoes_encoding(key);
    }
}

proof fn lemma_scan_collects(tags: Seq<Seq<Seq<char>>>, n: nat)
    requires
        n <= tags.len(),
        scanned(tags, n) is Ok,
    ensures
        ({
            let slots = scanned(tags, n)->Ok_0;
            &&& n == (if slots.owner is Some { 1int } else { 0int }) + (if slots.agent is Some {
                1int
            } else {
                0int
            })
            &&& slots.owner is Some ==> exists|i: int|
                0 <= i < n && tag_named(#[trigger] tags[i], "p"@) && names_key(
                    tags[i][1],
                    slots.owner->0,
                )
            &&& slots.agent is Some ==> exists|i: int|
                0 <= i < n && tag_named(#[trigger] tags[i], "agent"@) && names_key(
                    tags[i][1],
                    slots.agent->0,
                )
        }),
    decreases n,
{
    if n > 0 {
        lemma_tag_names_differ();
        lemma_scan_collects(tags, (n - 1) as nat);
        let tag = tags[n - 1];
        lemma_canonical_key_text(tag[1], hex_bytes(tag[1]));
        assert(tag_named(tag, "p"@) || tag_named(tag, "agent"@));
    }
}

/// Tags are accepted, and name a route, exactly when they are the canonical
/// pair for that route.
pub proof fn law_route_tags_are_the_canonical_pair(tags: Seq<Seq<Seq<char>>>, route: RouteView)
    ensures
        strict_tags(tags) == Ok::<RouteView, Seq<char>>(route) <==> canonical_pair(tags, route),
{
    lemma_tag_names_differ();
    if strict_tags(tags) == Ok::<RouteView, Seq<char>>(route) {
        lemma_scan_collects(tags, tags.len());
        let i = choose|i: int|
            0 <= i < tags.len() && tag_named(#[trigger] tags[i], "p"@) && names_key(
                tags[i][1],
                route.owner,
            );
        let j = choose|i: int|
            0 <= i < tags.len() && tag_named(#[trigger] tags[i], "agent"@) && names_key(
                tags[i][1],
                route.agent,
            );
        assert(j == 1 - i);
    }
    if canonical_pair(tags, route) {
        let i = choose|i: int|
            0 <= i < 2 && tag_named(#[trigger] tags[i], "p"@) && names_key(tags[i][1], route.owner)
                && tag_named(tags[1 - i], "agent"@) && names_key(tags[1 - i][1], route.agent);
        lemma_canonical_key_text(tags[i][1], route.owner);
        lemma_canonical_key_text(tags[1 - i][1], route.agent);
        reveal_with_fuel(scanned, 3);
    }
}

/// A routed message speaks of the tagged agent; a routed request of the owner
/// is signed by the tagged owner, and a routed command by the agent itself.
pub proof fn law_routed_events_are_signed_by_their_sender(
    event: EventView,
    message: TransferCoordinatorMessage,
)
    requires
        route_of(event, message) is Ok,
    ensures
        canonical_pair(event.tags, route_of(event, message)->Ok_0),
        names_key(message_agent(message), route_of(event, message)->Ok_0.agent),
        message is OwnerRequest ==> event.pubkey == route_of(event, message)->Ok_0.owner,
        message is ExecutorCommand ==> event.pubkey == route_of(event, message)->Ok_0.agent,
{
    let route = route_of(event, message)->Ok_0;
    law_route_tags_are_the_canonical_pair(event.tags, route);
}

/// An event is routed, and to this owner and agent, exactly if its tags are the
/// canonical pair for them, its message speaks of the agent, and it is signed by
/// the owner if it carries a request and by the agent if it carries a command.
pub proof fn law_events_are_routed_by_tags_message_and_signer(
    event: EventView,
    message: TransferCoordinatorMessage,
    route: RouteView,
)
    ensures
        route_of(event, message) == Ok::<RouteView, Seq<char>>(route) <==> {
            &&& canonical_pair(event.tags, route)
            &&& match message {
                TransferCoordinatorMessage::OwnerRequest {
                    request: TransferOwnerRequest::Start { transfer },
                } => names_key(transfer.agent_pubkey@, route.agent) && event.pubkey == route.owner,
                TransferCoordinatorMessage::OwnerRequest {
                    request: TransferOwnerRequest::Status { agent_pubkey },
                } => names_key(agent_pubkey@, route.agent) && event.pubkey == route.owner,
                TransferCoordinatorMessage::ExecutorCommand { command } => names_key(
                    command.agent_pubkey@,
                    route.agent,
                ) && event.pubkey == route.agent,
            }
        },
{
    law_route_tags_are_the_canonical_pair(event.tags, route);
    if canonical_pair(event.tags, route) {
        let i = choose|i: int|
            0 <= i < 2 && tag_named(#[trigger] event.tags[i], "p"@) && names_key(
                event.tags[i][1],
                route.owner,
            ) && tag_named(event.tags[1 - i], "agent"@) && names_key(
                event.tags[1 - i][1],
                route.agent,
            );
        assert(route.agent.len() == 32);
    }
}

/// An event with good tags is refused for the first thing that does not fit: the
/// agent of its message, or its signer. An event with bad tags is refused for
/// its tags.
pub proof fn law_route_refusals_name_the_misfit(
    event: EventView,
    message: TransferCoordinatorMessage,
)
    ensures
        strict_tags(event.tags) is Err ==> route_of(event, message) == Err::<RouteView, Seq<char>>(
            strict_tags(event.tags)->Err_0,
        ),
        strict_tags(event.tags) is Ok ==> {
            let route = strict_tags(event.tags)->Ok_0;
            let agent = message_agent(message);
            &&& agent != lower_hex(route.agent) ==> route_of(event, message) == Err::<
                RouteView,
                Seq<char>,
            >("agent tag does not match the request body"@)
            &&& agent == lower_hex(route.agent) && message is OwnerRequest && event.pubkey
                != route.owner ==> route_of(event, message) == Err::<RouteView, Seq<char>>(
                "owner request must be signed by the tagged owner"@,
            )
            &&& agent == lower_hex(route.agent) && message is ExecutorCommand && event.pubkey
                != route.agent ==> route_of(event, message) == Err::<RouteView, Seq<char>>(
                "executor command must be signed by the managed agent"@,
            )
        },
{
}

/// A message speaks of the agent of its record, its query or its command.
pub proof fn law_messages_speak_of_their_agent(message: TransferCoordinatorMessage)
    ensures
        message is OwnerRequest && message->request is Start ==> message_agent(message)
            == message->request->transfer.agent_pubkey@,
        message is OwnerRequest && message->request is Status ==> message_agent(message)
            == message->request->agent_pubkey@,
        message is ExecutorCommand ==> message_agent(message) == message->command.agent_pubkey@,
{
}

/// The first bad tag decides the refusal, and says what is wrong with it; after
/// good tags a missing name is refused, the owner's first.
pub proof fn law_the_first_bad_tag_decides(tags: Seq<Seq<Seq<char>>>, n: nat)
    requires
        n <= tags.len(),
        scanned(tags, n) is Ok,
    ensures
        n < tags.len() ==> {
            let tag = tags[n as int];
            let taken = exists|j: int| 0 <= j < n && (#[trigger] tags[j])[0] == tag[0];
            let named = tag.len() == 2 && (tag[0] == "p"@ || tag[0] == "agent"@);
            let hex = tag[1].len() == 64 && is_hex_text(tag[1]);
            &&& tag.len() != 2 ==> strict_tags(tags) == Err::<RouteView, Seq<char>>(
                "transfer coordinator tags must contain exactly two values"@,
            )
            &&& tag.len() == 2 && tag[0] != "p"@ && tag[0] != "agent"@ ==> strict_tags(tags)
                == Err::<RouteView, Seq<char>>("transfer coordinator contains an unsupported tag"@)
            &&& named && taken ==> strict_tags(tags) == Err::<RouteView, Seq<char>>(
                "transfer coordinator has duplicate `"@ + tag[0] + "` tag"@,
            )
            &&& named && !taken && !hex ==> strict_tags(tags) == Err::<RouteView, Seq<char>>(
                "transfer coordinator `"@ + tag[0] + "` tag is not a pubkey"@,
            )
            &&& named && !taken && hex && !names_key(tag[1], hex_bytes(tag[1])) ==> strict_tags(
                tags,
            ) == Err::<RouteView, Seq<char>>(
                "transfer coordinator `"@ + tag[0] + "` tag must use lowercase canonical hex"@,
            )
            &&& named && !taken && names_key(tag[1], hex_bytes(tag[1])) ==> scanned(
                tags,
                n + 1,
            ) is Ok
        },
        n == tags.len() ==> {
            let owner = exists|j: int| 0 <= j < n && (#[trigger] tags[j])[0] == "p"@;
            let agent = exists|j: int| 0 <= j < n && (#[trigger] tags[j])[0] == "agent"@;
            &&& !owner ==> strict_tags(tags) == Err::<RouteView, Seq<char>>(
                "transfer coordinator is missing the `p` tag"@,
            )
            &&& owner && !agent ==> strict_tags(tags) == Err::<RouteView, Seq<char>>(
                "transfer coordinator is missing the `agent` tag"@,
            )
        },
        scanned(tags, 0) is Ok,
{
    lemma_tag_names_differ();
    lemma_scan_collects(tags, n);
    lemma_scan_remembers(tags, n);
    let slots = scanned(tags, n)->Ok_0;
    if n < tags.len() {
        let tag = tags[n as int];
        if tag_refusal(slots, tag) is Some {
            lemma_scan_stops(tags, n + 1, tags.len());
        }
        lemma_canonical_key_text(tag[1], hex_bytes(tag[1]));
    }
}

proof fn lemma_scan_remembers(tags: Seq<Seq<Seq<char>>>, n: nat)
    requires
        n <= tags.len(),
        scanned(tags, n) is Ok,
    ensures
        forall|j: int|
            0 <= j < n && (#[trigger] tags[j])[0] == "p"@ ==> scanned(tags, n)->Ok_0.owner is Some,
        forall|j: int|
            0 <= j < n && (#[trigger] tags[j])[0] == "agent"@ ==> scanned(
                tags,
                n,
            )->Ok_0.agent is Some,
    decreases n,
{
    lemma_tag_names_differ();
    if n > 0 {
        lemma_scan_remembers(tags, (n - 1) as nat);
    }
}

/// Tags are accepted exactly if they are the `p` tag of the owner and the `agent`
/// tag of the agent, each with the lowercase notation of a key of 32 bytes, in
/// either order.
pub proof fn law_route_tags_are_two(tags: Seq<Seq<Seq<char>>>, route: RouteView)
    ensures
        strict_tags(tags) == Ok::<RouteView, Seq<char>>(route) <==> {
            &&& route.owner.len() == 32
            &&& route.agent.len() == 32
            &&& tags == seq![
                seq!["p"@, lower_hex(route.owner)],
                seq!["agent"@, lower_hex(route.agent)],
            ] || tags == seq![
                seq!["agent"@, lower_hex(route.agent)],
                seq!["p"@, lower_hex(route.owner)],
            ]
        },
{
    law_route_tags_are_the_canonical_pair(tags, route);
    let owner = seq!["p"@, lower_hex(route.owner)];
    let agent = seq!["agent"@, lower_hex(route.agent)];
    if canonical_pair(tags, route) {
        let i = choose|i: int|
            0 <= i < 2 && tag_named(#[trigger] tags[i], "p"@) && names_key(tags[i][1], route.owner)
                && tag_named(tags[1 - i], "agent"@) && names_key(tags[1 - i][1], route.agent);
        assert(tags[i] =~= owner);
        assert(tags[1 - i] =~= agent);
        if i == 0 {
            assert(tags =~= seq![owner, agent]);
        } else {
            assert(tags =~= seq![agent, owner]);
        }
    }
    if route.owner.len() == 32 && route.agent.len() == 32 {
        if tags == seq![owner, agent] {
            assert(tags[0] == owner && tags[1] == agent);
            assert(tag_named(tags[0], "p"@));
        }
        if tags == seq![agent, owner] {
            assert(tags[1] == owner && tags[0] == agent);
            assert(tag_named(tags[1], "p"@));
        }
    }
}

} // verus!
