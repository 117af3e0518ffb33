//! The accept token: the proof, sent back in `Sec-WebSocket-Accept`, that the
//! server has read the client's key.

use base64::engine::general_purpose::STANDARD;
use base64::engine::Engine;
use sha1::{Digest, Sha1};
use vstd::prelude::*;
use vstd::slice::slice_to_vec;
use vstd::string::*;

verus! {

/// The GUID that the WebSocket handshake appends to the client's key.
pub const WEBSOCKET_GUID: &'static str = "258EAFA5-E914-47DA-95CA-C5AB0DC85B11";

/// The bytes of the handshake's GUID.
pub open spec fn websocket_guid() -> Seq<u8> {
    WEBSOCKET_GUID.spec_bytes()
}

/// The SHA-1 digest of a message.
pub uninterp spec fn sha1_digest(message: Seq<u8>) -> Seq<u8>;

/// The character that the standard base64 alphabet gives to a six-bit value:
/// `A` to `Z`, `a` to `z`, `0` to `9`, `+`, `/`.
pub open spec fn base64_symbol(v: int) -> u8 {
    if v < 26 {
        (0x41 + v) as u8
    } else if v < 52 {
        (0x61 + (v - 26)) as u8
    } else if v < 62 {
        (0x30 + (v - 52)) as u8
    } else if v == 62 {
        0x2b
    } else {
        0x2f
    }
}

/// The base64 encoding of `data` in the standard alphabet, with padding:
/// each three bytes, read as one number of 24 bits, give four characters of
/// six bits each; one or two bytes left at the end give two or three
/// characters and `=` up to four.
pub open spec fn base64_standard(data: Seq<u8>) -> Seq<u8>
    decreases data.len(),
{
    if data.len() == 0 {
        Seq::empty()
    } else if data.len() == 1 {
        let n = data[0] * 0x1_0000;
        seq![base64_symbol(n / 0x4_0000), base64_symbol(n / 0x1000 % 64), 0x3d, 0x3d]
    } else if data.len() == 2 {
        let n = data[0] * 0x1_0000 + data[1] * 0x100;
        seq![
            base64_symbol(n / 0x4_0000),
            base64_symbol(n / 0x1000 % 64),
            base64_symbol(n / 64 % 64),
            0x3d,
        ]
    } else {
        let n = data[0] * 0x1_0000 + data[1] * 0x100 + data[2];
        seq![
            base64_symbol(n / 0x4_0000),
            base64_symbol(n / 0x1000 % 64),
            base64_symbol(n / 64 % 64),
            base64_symbol(n % 64),
        ] + base64_standard(data.skip(3))
    }
}

/// The accept token for a key: the base64 encoding of the SHA-1 digest of the
/// key followed by the handshake's GUID.
pub open spec fn accept_token(key: Seq<u8>) -> Seq<u8> {
    base64_standard(sha1_digest(key + websocket_guid()))
}

/// Whether a byte is a character of the standard base64 alphabet.
pub open spec fn is_base64_symbol(b: u8) -> bool {
    ||| 0x41 <= b <= 0x5a
    ||| 0x61 <= b <= 0x7a
    ||| 0x30 <= b <= 0x39
    ||| b == 0x2b
    ||| b == 0x2f
}

/// Whether a byte string is made of characters of the base64 alphabet and of
/// the padding `=`.
pub open spec fn is_base64_text(text: Seq<u8>) -> bool {
    forall|i: int| 0 <= i < text.len() ==> is_base64_symbol(#[trigger] text[i]) || text[i] == 0x3d
}

/// The shape of every accept token: 27 characters of the base64 alphabet and
/// one `=`.
pub open spec fn has_token_shape(token: Seq<u8>) -> bool {
    &&& token.len() == 28
    &&& forall|i: int| 0 <= i < 27 ==> is_base64_symbol(#[trigger] token[i])
    &&& token[27] == 0x3d
}

/// `Sha1::digest`: the SHA-1 digest of `message`.
///
/// Trusted: the result is the digest, which has 20 bytes.
#[verifier::external_body]
fn sha1(message: &[u8]) -> (digest: Vec<u8>)
    ensures
        digest@ == sha1_digest(message@),
        digest@.len() == 20,
{
    Sha1::digest(message).to_vec()
}

/// `Engine::encode` of the engine `STANDARD`, as bytes.
///
/// Trusted: the result is the base64 encoding of `data` in the standard
/// alphabet with padding. The outside function panics where it cannot
/// allocate the encoded length, which is left out here.
#[verifier::external_body]
fn base64_encode(data: &[u8]) -> (encoded: Vec<u8>)
    requires
        (data@.len() + 2) / 3 * 4 <= isize::MAX,
    ensures
        encoded@ == base64_standard(data@),
{
    STANDARD.encode(data).into_bytes()
}

/// Encodes a digest as the value of `Sec-WebSocket-Accept`: four characters
/// for each three bytes begun.
pub fn encode_digest(digest: &[u8]) -> (token: Vec<u8>)
    requires
        (digest@.len() + 2) / 3 * 4 <= isize::MAX,
    ensures
        token@ == base64_standard(digest@),
        token@.len() == (digest@.len() + 2) / 3 * 4,
        is_base64_text(token@),
{
    proof {
        lemma_base64_shape(digest@);
    }
    base64_encode(digest)
}

/// Computes the accept token for the client's key.
pub fn sign(key: &[u8]) -> (token: Vec<u8>)
    ensures
        token@ == accept_token(key@),
        has_token_shape(token@),
{
    let mut message: Vec<u8> = slice_to_vec(key);
    message.extend_from_slice(WEBSOCKET_GUID.as_bytes());
    assert(message@ =~= key@ + websocket_guid());
    let digest = sha1(message.as_slice());
    proof {
        lemma_digest_encoding_shape(digest@);
    }
    encode_digest(digest.as_slice())
}

/// The encoding has four characters for each three bytes begun, and each is
/// of the alphabet or is the padding `=`.
pub proof fn lemma_base64_shape(data: Seq<u8>)
    ensures
        base64_standard(data).len() == (data.len() + 2) / 3 * 4,
        is_base64_text(base64_standard(data)),
    decreases data.len(),
{
    assert forall|v: int| 0 <= v < 64 implies is_base64_symbol(#[trigger] base64_symbol(v)) by {}
    if data.len() >= 3 {
        lemma_base64_shape(data.skip(3));
    }
}

/// The encoding of a digest of 20 bytes has the shape of an accept token.
pub proof fn lemma_digest_encoding_shape(digest: Seq<u8>)
    requires
        digest.len() == 20,
    ensures
        has_token_shape(base64_standard(digest)),
{
    lemma_base64_shape(digest);
    reveal_with_fuel(base64_standard, 8);
    assert(digest.skip(3).skip(3) =~= digest.skip(6));
    assert(digest.skip(6).skip(3) =~= digest.skip(9));
    assert(digest.skip(9).skip(3) =~= digest.skip(12));
    assert(digest.skip(12).skip(3) =~= digest.skip(15));
    assert(digest.skip(15).skip(3) =~= digest.skip(18));
}

} // verus!
