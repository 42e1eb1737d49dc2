use crate::error::Error;
use vstd::prelude::*;

verus! {

/// The bytes that a base-58 text (Bitcoin alphabet) stands for; `None` for a
/// text that is not base 58.
pub uninterp spec fn base58_decoded(text: Seq<char>) -> Option<Seq<u8>>;

/// The base-58 text (Bitcoin alphabet) of a byte string.
pub uninterp spec fn base58_encoded(bytes: Seq<u8>) -> Seq<char>;

/// `bs58::decode(text).into_vec()`, with the decoder's error reduced to `None`.
/// Trusted: the result is what `base58_decoded` names.
#[verifier::external_body]
pub(crate) fn base58_decode(text: &str) -> (decoded: Option<Vec<u8>>)
    ensures
        decoded is Some <==> base58_decoded(text@) is Some,
        decoded is Some ==> decoded->0@ == base58_decoded(text@)->0,
{
    bs58::decode(text).into_vec().ok()
}

/// `bs58::encode(bytes).into_string()`.
/// Trusted: the result is what `base58_encoded` names.
#[verifier::external_body]
pub(crate) fn base58_encode(bytes: &[u8]) -> (text: String)
    ensures
        text@ == base58_encoded(bytes@),
{
    bs58::encode(bytes).into_string()
}

/// What `decode_32` yields for a text: the 32 bytes it stands for, if it stands
/// for exactly 32.
pub open spec fn decoded_32(text: Seq<char>) -> Option<Seq<u8>> {
    match base58_decoded(text) {
        Some(bytes) => if bytes.len() == 32 {
            Some(bytes)
        } else {
            None
        },
        None => None,
    }
}

/// Copies a vector of 32 bytes into an array.
pub(crate) fn to_array_32(bytes: &Vec<u8>) -> (array: [u8; 32])
    requires
        bytes@.len() == 32,
    ensures
        array@ == bytes@,
{
    let mut array: [u8; 32] = [0u8; 32];
    let mut i: usize = 0;
    while i < 32
        invariant
            i <= 32,
            bytes@.len() == 32,
            forall|j: int| 0 <= j < i ==> array@[j] == bytes@[j],
        decreases 32 - i,
    {
        array[i] = bytes[i];
        i += 1;
    }
    assert(array@ =~= bytes@);
    array
}

/// Decodes the base-58 text of a 32-byte hash.
///
/// Fails with `MalformedHash` exactly when the text is not base 58 or stands
/// for a byte string of another length.
pub fn decode_32(text: &str) -> (hash: Result<[u8; 32], Error>)
    ensures
        match decoded_32(text@) {
            Some(bytes) => hash is Ok && hash->Ok_0@ == bytes,
            None => hash == Err::<[u8; 32], Error>(Error::MalformedHash),
        },
{
    match base58_decode(text) {
        Some(bytes) => {
            if bytes.len() == 32 {
                Ok(to_array_32(&bytes))
            } else {
                Err(Error::MalformedHash)
            }
        },
        None => Err(Error::MalformedHash),
    }
}

/// Encodes a 32-byte hash as base-58 text.
pub fn encode_32(hash: &[u8; 32]) -> (text: String)
    ensures
        text@ == base58_encoded(hash@),
{
    base58_encode(hash.as_slice())
}

} // verus!
