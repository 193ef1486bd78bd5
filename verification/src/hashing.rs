use vstd::prelude::*;
use vstd::bytes::{spec_u32_to_le_bytes, spec_u64_to_le_bytes};
use crate::types::AccountId;

verus! {

/// The 128-bit Blake2 digest of a byte string.
pub uninterp spec fn blake2_128_digest(data: Seq<u8>) -> Seq<u8>;

/// The bytes that are hashed for a caller: the entropy seed as it stands, the
/// caller's identity in eight bytes, least significant first, then the call's
/// place in its block: a zero byte where there is none, else a one byte and
/// the place in four bytes, least significant first.
pub open spec fn payload_encoding(seed: Seq<u8>, sender: AccountId, extrinsic_index: Option<u32>) -> Seq<u8> {
    seed + spec_u64_to_le_bytes(sender) + match extrinsic_index {
        None => seq![0u8],
        Some(index) => seq![1u8] + spec_u32_to_le_bytes(index),
    }
}

/// Calls `sp_io::hashing::blake2_128`. The digest is a function of the bytes
/// alone; the contract gives it the name `blake2_128_digest` and says no more
/// of it.
#[verifier::external_body]
pub(crate) fn blake2_128(data: &[u8]) -> (digest: [u8; 16])
    ensures
        digest@ == blake2_128_digest(data@),
{
    sp_io::hashing::blake2_128(data)
}

/// Calls `parity_scale_codec::Encode::encode` on the tuple of the seed, a
/// reference to the sender and the index. The contract writes out what the
/// codec does with these types: a byte array goes out as it is, an integer in
/// little-endian order, a reference as what it refers to, an `Option` as a tag
/// byte and its content, and a tuple as its parts in a row.
#[verifier::external_body]
pub(crate) fn encode_payload(seed: &[u8; 32], sender: AccountId, extrinsic_index: Option<u32>) -> (bytes: Vec<u8>)
    ensures
        bytes@ == payload_encoding(seed@, sender, extrinsic_index),
{
    parity_scale_codec::Encode::encode(&(*seed, &sender, extrinsic_index))
}

/// Derives sixteen bytes for a caller from the entropy seed and the call's
/// place in its block: the Blake2 digest of their encoding.
pub fn random_value(seed: &[u8; 32], sender: AccountId, extrinsic_index: Option<u32>) -> (value: [u8; 16])
    ensures
        value@ == blake2_128_digest(payload_encoding(seed@, sender, extrinsic_index)),
{
    let payload = encode_payload(seed, sender, extrinsic_index);
    blake2_128(payload.as_slice())
}

} // verus!
