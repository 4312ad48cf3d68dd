use buzz_transfer::signed_event::SignedEvent;
use nostr::{EventBuilder, Keys, Kind, Tag};

fn signed() -> SignedEvent {
    let keys = Keys::generate();
    let event = EventBuilder::new(Kind::Custom(24_260), "content")
        .tags([Tag::parse(["agent", "value"]).unwrap()])
        .sign_with_keys(&keys)
        .unwrap();
    SignedEvent {
        id: event.id.to_bytes(),
        pubkey: event.pubkey.to_bytes(),
        created_at: event.created_at.as_secs(),
        kind: event.kind.as_u16(),
        tags: event.tags.iter().map(|tag| tag.as_slice().to_vec()).collect(),
        content: event.content.clone(),
        sig: event.sig.serialize(),
    }
}

#[test]
fn every_signed_field_is_verified() {
    assert_eq!(signed().verify(), Ok(()));

    let mut event = signed();
    event.content.push('!');
    assert!(event.verify().is_err());

    let mut event = signed();
    event.created_at += 1;
    assert!(event.verify().is_err());

    let mut event = signed();
    event.kind += 1;
    assert!(event.verify().is_err());

    let mut event = signed();
    event.tags.push(vec!["p".to_string(), "x".to_string()]);
    assert!(event.verify().is_err());

    let mut event = signed();
    event.tags.push(vec![]);
    assert!(event.verify().is_err());

    let mut event = signed();
    event.id[0] ^= 1;
    assert!(event.verify().is_err());

    let mut event = signed();
    event.sig[0] ^= 1;
    assert!(event.verify().is_err());

    let mut event = signed();
    event.pubkey = signed().pubkey;
    assert!(event.verify().is_err());
}

#[test]
fn ids_and_keys_are_written_in_lowercase_hex() {
    let mut event = signed();
    event.id = [0xab; 32];
    event.pubkey = [0x0f; 32];
    assert_eq!(event.id_hex(), "ab".repeat(32));
    assert_eq!(event.pubkey_hex(), "0f".repeat(32));
}
