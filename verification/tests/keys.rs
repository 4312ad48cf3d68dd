use buzz_transfer::keys::{canonical_key, CommunityId};

#[test]
fn canonical_keys_decode_to_their_bytes() {
    let text = "00ff10abcdef0123456789abcdef0123456789abcdef0123456789abcdef0a0b";
    let key = canonical_key(text).unwrap();
    assert_eq!(&key[..5], &[0x00, 0xff, 0x10, 0xab, 0xcd]);
    assert_eq!(&key[30..], &[0x0a, 0x0b]);
}

#[test]
fn other_notations_are_not_canonical() {
    assert_eq!(canonical_key(""), None);
    assert_eq!(canonical_key(&"AB".repeat(32)), None);
    assert_eq!(canonical_key(&"aB".repeat(32)), None);
    assert_eq!(canonical_key(&"ab".repeat(33)), None);
    assert_eq!(canonical_key(&"a".repeat(63)), None);
    assert_eq!(canonical_key(&"g0".repeat(32)), None);
    assert_eq!(canonical_key(&"é".repeat(32)), None);
}

#[test]
fn community_ids_are_written_as_hyphenated_uuids() {
    let bytes = [
        0x01, 0x23, 0x45, 0x67, 0x89, 0xab, 0xcd, 0xef, 0x00, 0x11, 0x22, 0x33, 0x44, 0x55, 0x66,
        0xff,
    ];
    let id = CommunityId::from_uuid(bytes);
    assert_eq!(id.uuid, bytes);
    assert_eq!(id.to_text(), "01234567-89ab-cdef-0011-2233445566ff");
    assert_eq!(
        CommunityId::from_uuid([0; 16]).to_text(),
        uuid::Uuid::nil().to_string()
    );
}
