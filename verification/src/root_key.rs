//! The root public key as text, which is how an enforcement point is given it.

use crate::tenuo_api;
use tenuo::sdk::prelude::PublicKey;
use vstd::prelude::*;

verus! {

/// The lower-case hex digit of a number under sixteen.
pub open spec fn hex_digit(d: nat) -> char {
    "0123456789abcdef"@[d as int]
}

/// Bytes in lower-case hex, two digits each, the high one first.
pub open spec fn hex_text(bytes: Seq<u8>) -> Seq<char> {
    Seq::new(
        2 * bytes.len(),
        |i: int|
            if i % 2 == 0 {
                hex_digit((bytes[i / 2] / 16) as nat)
            } else {
                hex_digit((bytes[i / 2] % 16) as nat)
            },
    )
}

/// The number that a hex digit of either case stands for.
pub open spec fn hex_value(c: char) -> Option<nat> {
    if '0' <= c <= '9' {
        Some((c as nat - '0' as nat) as nat)
    } else if 'a' <= c <= 'f' {
        Some((c as nat - 'a' as nat + 10) as nat)
    } else if 'A' <= c <= 'F' {
        Some((c as nat - 'A' as nat + 10) as nat)
    } else {
        None
    }
}

/// Whether text is hex: an even number of hex digits.
pub open spec fn is_hex(text: Seq<char>) -> bool {
    &&& text.len() % 2 == 0
    &&& forall|i: int| 0 <= i < text.len() ==> hex_value(#[trigger] text[i]) is Some
}

/// The bytes that hex stands for.
pub open spec fn hex_bytes(text: Seq<char>) -> Seq<u8> {
    Seq::new(
        text.len() / 2,
        |i: int| (16 * hex_value(text[2 * i])->Some_0 + hex_value(text[2 * i + 1])->Some_0) as u8,
    )
}

/// What `hex` says of text that is no hex.
pub uninterp spec fn hex_fault(text: Seq<char>) -> Seq<char>;

/// `hex::encode`: the bytes in lower-case hex.
#[verifier::external_body]
fn encode_hex(bytes: &[u8; 32]) -> (r: String)
    ensures
        r@ == hex_text(bytes@),
{
    hex::encode(bytes)
}

/// `hex::decode`, with the text of its error: it succeeds exactly on an even
/// number of hex digits of either case, and gives the bytes they stand for; what
/// it says of other text depends on that text alone.
#[verifier::external_body]
fn decode_hex(text: &str) -> (r: Result<Vec<u8>, String>)
    ensures
        r is Ok <==> is_hex(text@),
        r matches Ok(bytes) ==> bytes@ == hex_bytes(text@),
        r matches Err(fault) ==> fault@ == hex_fault(text@),
{
    hex::decode(text).map_err(|e| e.to_string())
}

/// Hex is read back as the bytes that it was written from.
pub proof fn law_hex_reads_back(bytes: Seq<u8>)
    ensures
        is_hex(hex_text(bytes)),
        hex_bytes(hex_text(bytes)) == bytes,
{
    let text = hex_text(bytes);
    assert forall|i: int| 0 <= i < text.len() implies hex_value(#[trigger] text[i]) is Some by {
        lemma_hex_digit((bytes[i / 2] / 16) as nat);
        lemma_hex_digit((bytes[i / 2] % 16) as nat);
    }
    assert forall|i: int| 0 <= i < bytes.len() implies hex_bytes(text)[i] == bytes[i] by {
        lemma_hex_digit((bytes[i] / 16) as nat);
        lemma_hex_digit((bytes[i] % 16) as nat);
        assert((2 * i) / 2 == i && (2 * i) % 2 == 0);
        assert((2 * i + 1) / 2 == i && (2 * i + 1) % 2 == 1);
        assert(16 * (bytes[i] / 16) + bytes[i] % 16 == bytes[i]);
    }
    assert(hex_bytes(text) =~= bytes);
}

/// A hex digit stands for its number.
proof fn lemma_hex_digit(d: nat)
    requires
        d < 16,
    ensures
        hex_value(hex_digit(d)) == Some(d),
{
    reveal_strlit("0123456789abcdef");
}

/// Why text is no root key.
pub enum RootKeyError {
    /// It is no hex.
    Hex(String),
    /// It does not have 32 bytes.
    Length,
    /// It is no key of good order.
    Key(String),
}

impl RootKeyError {
    /// What an operator reads of this error.
    pub open spec fn text(self) -> Seq<char> {
        match self {
            RootKeyError::Hex(text) => text@,
            RootKeyError::Length => "root key must be 32 bytes"@,
            RootKeyError::Key(text) => text@,
        }
    }

    /// What an operator reads of this error.
    pub fn to_text(&self) -> (r: String)
        ensures
            r@ == self.text(),
    {
        match self {
            RootKeyError::Hex(text) => text.clone(),
            RootKeyError::Length => "root key must be 32 bytes".to_owned(),
            RootKeyError::Key(text) => text.clone(),
        }
    }
}

/// Writes the root public key in hex.
pub fn root_key_text(key: &PublicKey) -> (r: String)
    ensures
        r@ == hex_text(tenuo_api::key_bytes(*key)),
{
    encode_hex(&tenuo_api::public_key_bytes(key))
}

/// Copies 32 bytes out of a list, which must have exactly so many.
fn exactly_32(bytes: &Vec<u8>) -> (r: Option<[u8; 32]>)
    ensures
        match r {
            Some(array) => array@ == bytes@,
            None => bytes@.len() != 32,
        },
{
    if bytes.len() != 32 {
        return None;
    }
    let mut array: [u8; 32] = [0u8; 32];
    let mut i: usize = 0;
    while i < 32
        invariant
            i <= 32,
            bytes@.len() == 32,
            array@.len() == 32,
            forall|j: int| 0 <= j < i ==> array@[j] == bytes@[j],
        decreases 32 - i,
    {
        array[i] = bytes[i];
        i = i + 1;
    }
    assert(array@ =~= bytes@);
    Some(array)
}

/// Reads the root public key from hex. Text that is no hex, hex of another length
/// and bytes that are no key are refused as such; a key that comes back has these
/// bytes.
pub fn parse_root_key(text: &str) -> (r: Result<PublicKey, RootKeyError>)
    ensures
        (r is Ok) == (is_hex(text@) && hex_bytes(text@).len() == 32 && tenuo_api::key_fault(
            hex_bytes(text@),
        ) is None),
        match r {
            Ok(key) => hex_bytes(text@) == tenuo_api::key_bytes(key),
            Err(RootKeyError::Hex(fault)) => !is_hex(text@) && fault@ == hex_fault(text@),
            Err(RootKeyError::Length) => is_hex(text@) && hex_bytes(text@).len() != 32,
            Err(RootKeyError::Key(fault)) => is_hex(text@) && hex_bytes(text@).len() == 32
                && tenuo_api::key_fault(hex_bytes(text@)) == Some(fault@),
        },
{
    let bytes = match decode_hex(text) {
        Ok(bytes) => bytes,
        Err(fault) => return Err(RootKeyError::Hex(fault)),
    };
    let array = match exactly_32(&bytes) {
        Some(array) => array,
        None => return Err(RootKeyError::Length),
    };
    match tenuo_api::public_key_from_bytes(&array) {
        Ok(key) => Ok(key),
        Err(text) => Err(RootKeyError::Key(text)),
    }
}

}
