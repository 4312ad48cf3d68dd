//! Signed events as plain values, and the calls that decode and verify them.

use nostr::secp256k1::schnorr::Signature;
use nostr::{EventId, Kind, PublicKey, Tag, Timestamp};
use vstd::prelude::*;

use crate::keys::{hex_encode, lower_hex};
use crate::text::str_eq;

verus! {

/// A signed Nostr event, field by field.
#[derive(Debug, PartialEq, Eq)]
pub struct SignedEvent {
    /// Event id.
    pub id: [u8; 32],
    /// Public key of the signer.
    pub pubkey: [u8; 32],
    /// Creation time in seconds since the Unix epoch.
    pub created_at: u64,
    /// Event kind.
    pub kind: u16,
    /// Tags, each a list of strings.
    pub tags: Vec<Vec<String>>,
    /// Content.
    pub content: String,
    /// Schnorr signature over the id.
    pub sig: [u8; 64],
}

/// The mathematical content of a [`SignedEvent`].
pub struct EventView {
    pub id: Seq<u8>,
    pub pubkey: Seq<u8>,
    pub created_at: u64,
    pub kind: u16,
    pub tags: Seq<Seq<Seq<char>>>,
    pub content: Seq<char>,
    pub sig: Seq<u8>,
}

impl View for SignedEvent {
    type V = EventView;

    open spec fn view(&self) -> EventView {
        EventView {
            id: self.id@,
            pubkey: self.pubkey@,
            created_at: self.created_at,
            kind: self.kind,
            tags: self.tags.deep_view(),
            content: self.content@,
            sig: self.sig@,
        }
    }
}

/// The views of a result that holds an event or a message.
pub open spec fn event_result_view(res: Result<SignedEvent, String>) -> Result<
    EventView,
    Seq<char>,
> {
    match res {
        Ok(event) => Ok(event@),
        Err(text) => Err(text@),
    }
}

/// The view of a result that holds nothing or a message.
pub open spec fn unit_result_view(res: Result<(), String>) -> Result<(), Seq<char>> {
    match res {
        Ok(_) => Ok(()),
        Err(text) => Err(text@),
    }
}

/// The event that a JSON text holds, or the message that refuses the text.
pub uninterp spec fn event_of_json(text: Seq<char>) -> Result<EventView, Seq<char>>;

/// The event that a JSON value, given as text, holds, or the message that
/// refuses the value.
pub uninterp spec fn event_of_value(text: Seq<char>) -> Result<EventView, Seq<char>>;

/// Whether the id and the signature of an event are right, or the message that
/// says which of them is not.
pub uninterp spec fn event_verification(event: EventView) -> Result<(), Seq<char>>;

/// Calls `serde_json::from_str` for a `nostr::Event` and copies its fields out.
/// The result is named, not described: it depends on the text alone.
#[verifier::external_body]
pub(crate) fn event_from_json(text: &str) -> (res: Result<SignedEvent, String>)
    ensures
        event_result_view(res) == event_of_json(text@),
{
    let event: nostr::Event = serde_json::from_str(text).map_err(|error| error.to_string())?;
    Ok(SignedEvent {
        id: event.id.to_bytes(),
        pubkey: event.pubkey.to_bytes(),
        created_at: event.created_at.as_secs(),
        kind: event.kind.as_u16(),
        tags: event.tags.iter().map(|tag| tag.as_slice().to_vec()).collect(),
        content: event.content,
        sig: event.sig.serialize(),
    })
}

/// Reads the text into a JSON value, calls `serde_json::from_value` for a
/// `nostr::Event` and copies its fields out. The result is named, not
/// described: it depends on the text alone.
#[verifier::external_body]
pub(crate) fn event_from_value(text: &str) -> (res: Result<SignedEvent, String>)
    ensures
        event_result_view(res) == event_of_value(text@),
{
    let value: serde_json::Value = serde_json::from_str(text).map_err(|e| e.to_string())?;
    let event: nostr::Event = serde_json::from_value(value).map_err(|e| e.to_string())?;
    Ok(SignedEvent {
        id: event.id.to_bytes(),
        pubkey: event.pubkey.to_bytes(),
        created_at: event.created_at.as_secs(),
        kind: event.kind.as_u16(),
        tags: event.tags.iter().map(|tag| tag.as_slice().to_vec()).collect(),
        content: event.content,
        sig: event.sig.serialize(),
    })
}

/// Rebuilds the `nostr::Event` and calls its `verify`, which recomputes the id
/// and checks the signature over it. A field that `nostr` cannot take, such as
/// an empty tag, is refused with its message. The result is named, not
/// described: it depends on the fields of the event alone.
#[verifier::external_body]
pub(crate) fn verify_event(event: &SignedEvent) -> (res: Result<(), String>)
    ensures
        unit_result_view(res) == event_verification(event@),
{
    let tags = event.tags.iter().map(|tag| Tag::parse(tag.clone()));
    let tags: Vec<Tag> = tags.collect::<Result<_, _>>().map_err(|e| e.to_string())?;
    let id = EventId::from_byte_array(event.id);
    let pubkey = PublicKey::from_byte_array(event.pubkey);
    let created_at = Timestamp::from_secs(event.created_at);
    let kind = Kind::from_u16(event.kind);
    let sig = Signature::from_slice(&event.sig).map_err(|e| e.to_string())?;
    let event = nostr::Event::new(id, pubkey, created_at, kind, tags, event.content.as_str(), sig);
    event.verify().map_err(|e| e.to_string())
}

/// A tag of exactly two values whose first is `name`.
pub open spec fn tag_named(tag: Seq<Seq<char>>, name: Seq<char>) -> bool {
    tag.len() == 2 && tag[0] == name
}

/// The `p` tag names the signer of the event.
pub open spec fn signed_by_tagged_owner(event: EventView) -> bool {
    exists|i: int|
        0 <= i < event.tags.len() && tag_named(#[trigger] event.tags[i], "p"@) && event.tags[i][1]
            == lower_hex(event.pubkey)
}

/// The two names of routing tags differ.
pub proof fn lemma_tag_names_differ()
    ensures
        "p"@ != "agent"@,
{
    reveal_strlit("p");
    reveal_strlit("agent");
    assert("p"@.len() != "agent"@.len());
}

/// Whether the tag consists of `name` and one value.
pub(crate) fn tag_is(tag: &Vec<String>, name: &str) -> (res: bool)
    ensures
        res == tag_named(tag.deep_view(), name@),
{
    tag.len() == 2 && str_eq(tag[0].as_str(), name)
}

impl SignedEvent {
    /// Recomputes the id and checks the signature.
    pub fn verify(&self) -> (res: Result<(), String>)
        ensures
            unit_result_view(res) == event_verification(self@),
    {
        verify_event(self)
    }

    /// The event id in lowercase hexadecimal notation.
    pub fn id_hex(&self) -> (res: String)
        ensures
            res@ == lower_hex(self@.id),
    {
        hex_encode(&self.id)
    }

    /// The signer's key in lowercase hexadecimal notation.
    pub fn pubkey_hex(&self) -> (res: String)
        ensures
            res@ == lower_hex(self@.pubkey),
    {
        hex_encode(&self.pubkey)
    }
}

/// The view of an event shows every field of it, and those of results show what
/// they hold.
pub proof fn law_event_views_are_complete(event: SignedEvent, text: String, i: int, j: int)
    requires
        0 <= i < event.tags@.len(),
        0 <= j < event.tags@[i]@.len(),
    ensures
        event@.id == event.id@,
        event@.pubkey == event.pubkey@,
        event@.created_at == event.created_at,
        event@.kind == event.kind,
        event@.content == event.content@,
        event@.sig == event.sig@,
        event@.tags.len() == event.tags@.len(),
        event@.tags[i].len() == event.tags@[i]@.len(),
        event@.tags[i][j] == event.tags@[i]@[j]@,
        event_result_view(Ok(event)) == Ok::<EventView, Seq<char>>(event@),
        event_result_view(Err(text)) == Err::<EventView, Seq<char>>(text@),
        unit_result_view(Ok(())) == Ok::<(), Seq<char>>(()),
        unit_result_view(Err(text)) == Err::<(), Seq<char>>(text@),
{
}

} // verus!
