//! Identifier derivation: a content identifier is the first `ID_LENGTH`
//! characters of the base-58 encoding of the content's 256-bit hash.

use vstd::prelude::*;
use crate::ID_LENGTH;

verus! {

/// The 256-bit digest that `blake3::hash` computes for the given bytes.
pub uninterp spec fn blake3_of(b: Seq<u8>) -> Seq<u8>;

/// The base-58 text (Bitcoin alphabet, no padding) that `bs58::encode`
/// produces for the given bytes.
pub uninterp spec fn base58_of(d: Seq<u8>) -> Seq<u8>;

/// The identifier derived from content `b`: the first `ID_LENGTH`
/// characters of the base-58 encoding of its digest. A pure function of
/// the content bytes alone.
pub open spec fn spec_identifier(b: Seq<u8>) -> Seq<u8> {
    base58_of(blake3_of(b)).take(ID_LENGTH as int)
}

/// Relies on `blake3::hash`: the digest depends on the input bytes alone,
/// and `blake3::Hash::as_bytes` returns exactly 32 bytes (its result type
/// is `&[u8; 32]`).
#[verifier::external_body]
fn blake3_hash(b: &Vec<u8>) -> (r: Vec<u8>)
    ensures
        r@ == blake3_of(b@),
        r@.len() == 32,
{
    blake3::hash(b.as_slice()).as_bytes().to_vec()
}

/// Relies on `bs58::encode(..).into_vec()` with the default alphabet: the
/// encoding depends on the input bytes alone. Its `encode_into` routine
/// emits one digit per leading zero byte and, for the remaining bytes,
/// one base-58 digit position per byte at least (a base-58 digit carries
/// less information than a byte), so the output is never shorter than the
/// input.
#[verifier::external_body]
fn base58_encode(d: &Vec<u8>) -> (r: Vec<u8>)
    ensures
        r@ == base58_of(d@),
        r@.len() >= d@.len(),
{
    bs58::encode(d.as_slice()).into_vec()
}

/// Derives the identifier for `body`: hash, base-58 encode, keep the first
/// `ID_LENGTH` characters. Deterministic: the result is a function of the
/// content bytes alone, so identical content always gets the same name.
pub fn derive_identifier(body: &Vec<u8>) -> (r: Vec<u8>)
    ensures
        r@ == spec_identifier(body@),
        r@.len() == ID_LENGTH,
{
    let digest = blake3_hash(body);
    let mut encoded = base58_encode(&digest);
    encoded.truncate(ID_LENGTH);
    encoded
}

} // verus!
