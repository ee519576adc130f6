use vstd::prelude::*;

verus! {

use crate::error::CoreError;
use crate::keys::PublicKey;

/// The base58 text (default alphabet) that encodes a byte sequence.
pub uninterp spec fn base58_of(b: Seq<u8>) -> Seq<char>;

/// The standard padded base64 text that encodes a byte sequence.
pub uninterp spec fn base64_of(b: Seq<u8>) -> Seq<char>;

/// Relies on bs58::encode with the default alphabet: the text returned is a pure
/// function of the input bytes.
#[verifier::external_body]
fn bs58_encode(b: &Vec<u8>) -> (r: String)
    ensures
        r@ == base58_of(b@),
{
    bs58::encode(b.as_slice()).into_string()
}

/// Relies on bs58::decode with the default alphabet: decoding is the two-sided
/// inverse of bs58::encode, succeeding exactly on canonical base58 text.
#[verifier::external_body]
fn bs58_decode(s: &str) -> (r: Option<Vec<u8>>)
    ensures
        r is Some ==> base58_of(r->Some_0@) == s@,
        forall|b: Seq<u8>| base58_of(b) == s@ ==> r is Some && r->Some_0@ == b,
{
    bs58::decode(s).into_vec().ok()
}

/// Relies on base64's STANDARD engine encode: the text returned is a pure
/// function of the input bytes.
#[verifier::external_body]
fn b64_encode(b: &Vec<u8>) -> (r: String)
    ensures
        r@ == base64_of(b@),
{
    base64::Engine::encode(&base64::engine::general_purpose::STANDARD, b.as_slice())
}

/// Relies on base64's STANDARD engine decode, which requires canonical padding
/// and rejects set trailing bits: it succeeds exactly on canonical encodings,
/// as the two-sided inverse of the STANDARD encode.
#[verifier::external_body]
fn b64_decode(s: &str) -> (r: Option<Vec<u8>>)
    ensures
        r is Some ==> base64_of(r->Some_0@) == s@,
        forall|b: Seq<u8>| base64_of(b) == s@ ==> r is Some && r->Some_0@ == b,
{
    base64::Engine::decode(&base64::engine::general_purpose::STANDARD, s).ok()
}

/// Encodes bytes as base58 text. Lossless: decode_base58 recovers the input.
pub fn encode_base58(bytes: &Vec<u8>) -> (r: String)
    ensures
        r@ == base58_of(bytes@),
{
    bs58_encode(bytes)
}

/// Decodes base58 text. Round-trip: on the encoding of any byte sequence `b`
/// this returns exactly `b`; on text that encodes nothing it reports
/// `DecodeError`.
pub fn decode_base58(s: &str) -> (r: Result<Vec<u8>, CoreError>)
    ensures
        r matches Ok(v) ==> base58_of(v@) == s@,
        forall|b: Seq<u8>| base58_of(b) == s@ ==> (r matches Ok(v) && v@ == b),
        r is Err ==> r == Err::<Vec<u8>, CoreError>(CoreError::DecodeError),
{
    match bs58_decode(s) {
        Some(v) => Ok(v),
        None => Err(CoreError::DecodeError),
    }
}

/// Encodes bytes as standard padded base64 text.
pub fn encode_base64(bytes: &Vec<u8>) -> (r: String)
    ensures
        r@ == base64_of(bytes@),
{
    b64_encode(bytes)
}

/// Decodes standard base64 text. Round-trip: on the encoding of any byte
/// sequence `b` this returns exactly `b`; otherwise it reports `DecodeError`.
pub fn decode_base64(s: &str) -> (r: Result<Vec<u8>, CoreError>)
    ensures
        r matches Ok(v) ==> base64_of(v@) == s@,
        forall|b: Seq<u8>| base64_of(b) == s@ ==> (r matches Ok(v) && v@ == b),
        r is Err ==> r == Err::<Vec<u8>, CoreError>(CoreError::DecodeError),
{
    match b64_decode(s) {
        Some(v) => Ok(v),
        None => Err(CoreError::DecodeError),
    }
}

/// Whether some 32-byte value encodes (in base58) to this text.
pub open spec fn is_key_text(s: Seq<char>) -> bool {
    exists|b: Seq<u8>| b.len() == 32 && base58_of(b) == s
}

/// The 32-byte value this text encodes, where one exists.
pub open spec fn key_of_text(s: Seq<char>) -> Seq<u8> {
    choose|b: Seq<u8>| b.len() == 32 && base58_of(b) == s
}

/// Parses the base58 text form of a public key. Succeeds exactly on the
/// encoding of a 32-byte value, and then returns that value: in particular the
/// text form of any public key parses back to that key. Text that encodes
/// nothing gives `DecodeError`; text that encodes a value of another length
/// gives `InvalidKeyFormat`.
pub fn parse_public_key(s: &str) -> (r: Result<PublicKey, CoreError>)
    ensures
        r matches Ok(pk) ==> pk.wf() && base58_of(pk@) == s@ && pk@ == key_of_text(s@),
        forall|b: Seq<u8>| b.len() == 32 && base58_of(b) == s@ ==> (r matches Ok(pk) && pk@ == b),
        r is Ok <==> is_key_text(s@),
        (forall|b: Seq<u8>| base58_of(b) != s@) ==> r == Err::<PublicKey, CoreError>(
            CoreError::DecodeError,
        ),
        r is Err && (exists|b: Seq<u8>| base58_of(b) == s@) ==> r == Err::<PublicKey, CoreError>(
            CoreError::InvalidKeyFormat,
        ),
{
    match bs58_decode(s) {
        Some(v) => {
            if v.len() == 32 {
                Ok(PublicKey { bytes: v })
            } else {
                Err(CoreError::InvalidKeyFormat)
            }
        },
        None => Err(CoreError::DecodeError),
    }
}

} // verus!
