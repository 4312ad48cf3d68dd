//! Public keys, their hexadecimal notation, and community identifiers.

use vstd::prelude::*;

use crate::text::str_eq;

verus! {

/// The lowercase hexadecimal digit for `n`.
pub open spec fn hex_digit(n: int) -> char {
    if n < 10 {
        ('0' as u32 + n) as char
    } else {
        ('a' as u32 + n - 10) as char
    }
}

/// Two lowercase hexadecimal digits for each byte, the high one first.
pub open spec fn lower_hex(bytes: Seq<u8>) -> Seq<char> {
    Seq::new(
        2 * bytes.len(),
        |i: int|
            if i % 2 == 0 {
                hex_digit(bytes[i / 2] as int / 16)
            } else {
                hex_digit(bytes[i / 2] as int % 16)
            },
    )
}

/// A hexadecimal digit of either case.
pub open spec fn is_hex_digit(c: char) -> bool {
    '0' <= c <= '9' || 'a' <= c <= 'f' || 'A' <= c <= 'F'
}

/// The value of a hexadecimal digit.
pub open spec fn hex_value(c: char) -> int {
    if '0' <= c <= '9' {
        c as u32 - '0' as u32
    } else if 'a' <= c <= 'f' {
        c as u32 - 'a' as u32 + 10
    } else {
        c as u32 - 'A' as u32 + 10
    }
}

/// An even number of hexadecimal digits.
pub open spec fn is_hex_text(s: Seq<char>) -> bool {
    &&& s.len() % 2 == 0
    &&& forall|i: int| 0 <= i < s.len() ==> is_hex_digit(#[trigger] s[i])
}

/// The bytes that a text of hexadecimal digits denotes.
pub open spec fn hex_bytes(s: Seq<char>) -> Seq<u8> {
    Seq::new(
        s.len() / 2,
        |i: int| (16 * hex_value(s[2 * i]) + hex_value(s[2 * i + 1])) as u8,
    )
}

/// `text` is the canonical notation of the 32-byte key `key`.
pub open spec fn names_key(text: Seq<char>, key: Seq<u8>) -> bool {
    key.len() == 32 && lower_hex(key) == text
}

/// A lowercase hexadecimal digit.
pub open spec fn is_lower_hex_digit(c: char) -> bool {
    '0' <= c <= '9' || 'a' <= c <= 'f'
}

/// Exactly 64 lowercase hexadecimal digits.
pub open spec fn is_canonical_key(text: Seq<char>) -> bool {
    text.len() == 64 && forall|i: int| 0 <= i < text.len() ==> is_lower_hex_digit(#[trigger] text[i])
}

/// The view of a key or of the message in its place.
pub open spec fn key_result_view(res: Result<[u8; 32], String>) -> Result<Seq<u8>, Seq<char>> {
    match res {
        Ok(key) => Ok(key@),
        Err(text) => Err(text@),
    }
}

/// Calls `hex::decode`, which accepts an even number of hexadecimal digits of
/// either case and returns the bytes that they denote. The error is dropped.
#[verifier::external_body]
fn hex_decode(text: &str) -> (res: Option<Vec<u8>>)
    ensures
        match res {
            Some(bytes) => is_hex_text(text@) && bytes@ == hex_bytes(text@),
            None => !is_hex_text(text@),
        },
{
    hex::decode(text).ok()
}

/// Calls `hex::encode`, which writes every byte as two lowercase digits.
#[verifier::external_body]
pub(crate) fn hex_encode(bytes: &[u8; 32]) -> (res: String)
    ensures
        res@ == lower_hex(bytes@),
{
    hex::encode(bytes)
}

/// Calls `nostr::PublicKey::from_hex`, which decodes exactly 64 hexadecimal
/// digits of either case and does not look at the curve.
#[verifier::external_body]
pub(crate) fn public_key_from_hex(text: &str) -> (res: Option<[u8; 32]>)
    ensures
        match res {
            Some(key) => text@.len() == 64 && is_hex_text(text@) && key@ == hex_bytes(text@),
            None => !(text@.len() == 64 && is_hex_text(text@)),
        },
{
    nostr::PublicKey::from_hex(text).ok().map(|key| key.to_bytes())
}

/// The lowercase hexadecimal notation of `bytes` in the grouping of a UUID.
pub open spec fn hyphenated(bytes: Seq<u8>) -> Seq<char> {
    let hex = lower_hex(bytes);
    hex.subrange(0, 8).push('-') + hex.subrange(8, 12).push('-') + hex.subrange(12, 16).push('-')
        + hex.subrange(16, 20).push('-') + hex.subrange(20, 32)
}

/// Calls `uuid::Uuid::from_bytes` and the `Display` of the UUID, which writes
/// lowercase hexadecimal digits in groups of 8, 4, 4, 4 and 12.
#[verifier::external_body]
pub(crate) fn uuid_text(bytes: [u8; 16]) -> (res: String)
    ensures
        res@ == hyphenated(bytes@),
{
    uuid::Uuid::from_bytes(bytes).to_string()
}

/// Whether two byte strings are equal.
pub(crate) fn same_bytes(a: &[u8], b: &[u8]) -> (res: bool)
    ensures
        res == (a@ == b@),
{
    if a.len() != b.len() {
        return false;
    }
    let mut i: usize = 0;
    while i < a.len()
        invariant
            a.len() == b.len(),
            i <= a.len(),
            forall|j: int| 0 <= j < i ==> a@[j] == b@[j],
        decreases a.len() - i,
    {
        if a[i] != b[i] {
            return false;
        }
        i = i + 1;
    }
    assert(a@ =~= b@);
    true
}

/// The identifier of a community.
#[derive(Debug, Clone, Copy, PartialEq, Eq)]
pub struct CommunityId {
    /// The sixteen bytes of the community's UUID.
    pub uuid: [u8; 16],
}

impl CommunityId {
    /// Wraps the bytes of a UUID.
    pub fn from_uuid(uuid: [u8; 16]) -> (res: Self)
        ensures
            res.uuid == uuid,
    {
        CommunityId { uuid }
    }

    /// The notation of the identifier, as transfer records hold it.
    pub open spec fn text(self) -> Seq<char> {
        hyphenated(self.uuid@)
    }

    /// Writes the identifier as transfer records hold it.
    pub fn to_text(&self) -> (res: String)
        ensures
            res@ == self.text(),
    {
        uuid_text(self.uuid)
    }
}

proof fn lemma_hex_digit(n: int)
    requires
        0 <= n < 16,
    ensures
        is_hex_digit(hex_digit(n)),
        hex_value(hex_digit(n)) == n,
{
}

/// Decoding undoes encoding: the lowercase notation of any bytes is
/// hexadecimal text and denotes those bytes.
pub proof fn law_decoding_undoes_encoding(bytes: Seq<u8>)
    ensures
        is_hex_text(lower_hex(bytes)),
        hex_bytes(lower_hex(bytes)) == bytes,
{
    let s = lower_hex(bytes);
    assert forall|i: int| 0 <= i < s.len() implies is_hex_digit(#[trigger] s[i]) by {
        lemma_hex_digit(bytes[i / 2] as int / 16);
        lemma_hex_digit(bytes[i / 2] as int % 16);
    }
    assert forall|i: int| 0 <= i < bytes.len() implies #[trigger] hex_bytes(s)[i] == bytes[i] by {
        lemma_hex_digit(bytes[i] as int / 16);
        lemma_hex_digit(bytes[i] as int % 16);
        assert((2 * i) / 2 == i && (2 * i) % 2 == 0);
        assert((2 * i + 1) / 2 == i && (2 * i + 1) % 2 == 1);
    }
    assert(hex_bytes(s) =~= bytes);
}

/// A text is canonical exactly when it is the notation of the key that it
/// decodes to, and then of no other key.
pub proof fn law_canonical_text_names_its_key(text: Seq<char>)
    ensures
        is_canonical_key(text) <==> names_key(text, hex_bytes(text)),
        forall|key: Seq<u8>| #[trigger]
            names_key(text, key) ==> is_canonical_key(text) && key == hex_bytes(text),
{
    if is_canonical_key(text) {
        let key = hex_bytes(text);
        let back = lower_hex(key);
        assert forall|i: int| 0 <= i < 64 implies #[trigger] back[i] == text[i] by {
            let k = i / 2;
            assert(is_lower_hex_digit(text[2 * k]) && is_lower_hex_digit(text[2 * k + 1]));
            let high = hex_value(text[2 * k]);
            let low = hex_value(text[2 * k + 1]);
            assert(key[k] == 16 * high + low);
            assert(key[k] as int / 16 == high && key[k] as int % 16 == low);
            assert(i == 2 * k || i == 2 * k + 1);
        }
        assert(back =~= text);
    }
    assert forall|key: Seq<u8>| #[trigger] names_key(text, key) implies is_canonical_key(text)
        && key == hex_bytes(text) by {
        law_decoding_undoes_encoding(key);
        assert forall|i: int| 0 <= i < text.len() implies is_lower_hex_digit(#[trigger] text[i]) by {
            assert(text[i] == lower_hex(key)[i]);
        }
    }
}

/// The key that `bytes` holds, if there are exactly 32 of them.
pub(crate) fn key_array(bytes: &[u8]) -> (res: Option<[u8; 32]>)
    ensures
        match res {
            Some(key) => key@ == bytes@,
            None => bytes@.len() != 32,
        },
{
    if bytes.len() != 32 {
        return None;
    }
    let mut key: [u8; 32] = [0u8; 32];
    let mut i: usize = 0;
    while i < 32
        invariant
            i <= 32,
            bytes.len() == 32,
            forall|j: int| 0 <= j < i ==> key@[j] == bytes@[j],
        decreases 32 - i,
    {
        key[i] = bytes[i];
        i = i + 1;
    }
    assert(key@ =~= bytes@);
    Some(key)
}

/// Reads a key from its canonical notation: 64 lowercase hexadecimal digits.
pub fn canonical_key(text: &str) -> (res: Option<[u8; 32]>)
    ensures
        match res {
            Some(key) => names_key(text@, key@),
            None => !is_canonical_key(text@),
        },
{
    proof {
        law_canonical_text_names_its_key(text@);
    }
    let bytes = match hex_decode(text) {
        Some(bytes) => bytes,
        None => {
            return None;
        },
    };
    let key = match key_array(bytes.as_slice()) {
        Some(key) => key,
        None => {
            return None;
        },
    };
    if !str_eq(hex_encode(&key).as_str(), text) {
        return None;
    }
    Some(key)
}

/// A canonical key is 64 characters from `0` to `9` and `a` to `f`.
pub proof fn law_canonical_keys_are_lowercase_digits(text: Seq<char>)
    ensures
        is_canonical_key(text) <==> {
            &&& text.len() == 64
            &&& forall|i: int|
                0 <= i < 64 ==> ('0' <= #[trigger] text[i] <= '9' || 'a' <= text[i] <= 'f')
        },
{
}

/// The notation of a community is 36 characters long, with a hyphen after the
/// 8th, 12th, 16th and 20th digit, and no other community has it.
pub proof fn law_community_texts_are_unique(a: CommunityId, b: CommunityId)
    ensures
        a.text().len() == 36,
        a.text()[8] == '-' && a.text()[13] == '-' && a.text()[18] == '-' && a.text()[23] == '-',
        a.text() == b.text() ==> a.uuid@ == b.uuid@,
{
    let x = lower_hex(a.uuid@);
    let y = lower_hex(b.uuid@);
    assert forall|i: int| 0 <= i < 32 implies #[trigger] x[i] == a.text()[if i < 8 {
        i
    } else if i < 12 {
        i + 1
    } else if i < 16 {
        i + 2
    } else if i < 20 {
        i + 3
    } else {
        i + 4
    }] by {}
    assert forall|i: int| 0 <= i < 32 implies #[trigger] y[i] == b.text()[if i < 8 {
        i
    } else if i < 12 {
        i + 1
    } else if i < 16 {
        i + 2
    } else if i < 20 {
        i + 3
    } else {
        i + 4
    }] by {}
    if a.text() == b.text() {
        assert(x =~= y);
        law_decoding_undoes_encoding(a.uuid@);
        law_decoding_undoes_encoding(b.uuid@);
    }
}

} // verus!
