//! Derivation of the session network id: the node's reported network-id
//! string is hashed with Blake2b-256 and the first eight digest bytes are
//! read as a little-endian 64-bit integer.

use vstd::prelude::*;

use blake2::{Blake2b256, Digest};
use vstd::string::StringSliceAdditionalSpecFns;

use crate::codec::{read_u64_le, u64_from_le};

verus! {

/// The Blake2b-256 digest of `data`: 32 bytes depending on `data` alone.
pub uninterp spec fn blake2b256_digest(data: Seq<u8>) -> Seq<u8>;

/// Relies on `blake2::Blake2b256` (through `blake2::Digest`): the digest is
/// 32 bytes long and a deterministic function of the input bytes alone.
#[verifier::external_body]
fn blake2b256(data: &[u8]) -> (r: Vec<u8>)
    ensures
        r@ == blake2b256_digest(data@),
        r@.len() == 32,
{
    let mut hasher = Blake2b256::new();
    hasher.update(data);
    hasher.finalize().to_vec()
}

/// The 64-bit network id derived from the reported network-id bytes: the
/// first eight bytes of their Blake2b-256 digest, read little-endian. A
/// function of the bytes alone, so equal strings always give equal ids.
pub open spec fn network_id_of(name: Seq<u8>) -> u64 {
    u64_from_le(blake2b256_digest(name).take(8))
}

/// Derives the network id of the network calling itself `name`.
pub fn network_id_from_name(name: &str) -> (r: u64)
    ensures
        r == network_id_of(name.spec_bytes()),
{
    let digest = blake2b256(name.as_bytes());
    read_u64_le(digest.as_slice())
}

/// Law: the network id is a function of the reported network-id string
/// alone — derivations from equal strings give equal ids, however often and
/// whenever they run.
pub proof fn lemma_network_id_deterministic(name1: Seq<u8>, name2: Seq<u8>)
    requires
        name1 == name2,
    ensures
        network_id_of(name1) == network_id_of(name2),
{
}

} // verus!
