//! The proof-of-work provider: either searches locally for a nonce that
//! makes the message score reach the target, spreading the search over all
//! available processing units, or delegates the work to the issuing node by
//! returning the zero nonce.

use vstd::prelude::*;

use bee_pow::providers::miner::MinerBuilder;
use bee_pow::providers::{NonceProvider, NonceProviderBuilder};

use crate::codec::u64_le_bytes;
use crate::error::Error;

verus! {

/// The trailing-zero count of the ternary proof-of-work hash of a full
/// message (payload followed by its eight-byte little-endian nonce); a
/// deterministic function of those bytes alone.
pub uninterp spec fn pow_trailing_zeros(message: Seq<u8>) -> nat;

/// The trailing-zero count that a message of `len` bytes must reach for the
/// proof-of-work score `target_score`; a deterministic function of the two.
pub uninterp spec fn pow_target_zeros(len: nat, target_score: u32) -> nat;

/// The length of the ternary proof-of-work hash, and so the largest
/// trailing-zero count any message can reach.
pub const POW_HASH_LENGTH: usize = 243;

/// Relies on `bee_pow::providers::miner::Miner::nonce` (built through
/// `bee_pow::providers::NonceProviderBuilder`): every nonce it returns was
/// checked by a search worker to give the proof-of-work hash of
/// `bytes ‖ nonce` at least the trailing-zero count that `target_score`
/// demands of a message this long, and it fails exactly when that demanded
/// count exceeds the hash length. Which qualifying nonce comes back depends
/// on thread timing, so no more is stated. The search splits the nonce
/// space by the worker count, so at least one worker is required.
#[verifier::external_body]
fn mine_nonce(bytes: &[u8], target_score: u32, num_workers: usize) -> (r: Option<u64>)
    requires
        num_workers >= 1,
    ensures
        r matches Some(n) ==> pow_trailing_zeros(bytes@ + u64_le_bytes(n)) >= pow_target_zeros(
            bytes@.len() + 8,
            target_score,
        ),
        r is None <==> pow_target_zeros(bytes@.len() + 8, target_score) > POW_HASH_LENGTH,
{
    MinerBuilder::new().with_num_workers(num_workers).finish().nonce(bytes, target_score).ok()
}

/// Relies on `num_cpus::get`: the number of available processing units of
/// this machine, documented to be at least one.
#[verifier::external_body]
fn available_processing_units() -> (n: usize)
    ensures
        n >= 1,
{
    num_cpus::get()
}

/// The deferred configuration of a miner: whether proof of work is computed
/// locally or delegated to the issuing node.
pub struct ClientMinerBuilder {
    pub local_pow: bool,
}

impl ClientMinerBuilder {
    /// A builder in the default configuration.
    pub fn new() -> (r: Self)
        ensures
            !r.local_pow,
    {
        ClientMinerBuilder { local_pow: false }
    }

    /// Sets whether proof of work runs locally.
    pub fn with_local_pow(self, value: bool) -> (r: Self)
        ensures
            r.local_pow == value,
    {
        ClientMinerBuilder { local_pow: value }
    }

    /// Builds the miner with the chosen configuration.
    pub fn finish(self) -> (r: ClientMiner)
        ensures
            r.local_pow == self.local_pow,
    {
        ClientMiner { local_pow: self.local_pow }
    }
}

impl Default for ClientMinerBuilder {
    /// The default configuration: proof of work is delegated.
    fn default() -> (r: Self)
        ensures
            !r.local_pow,
    {
        ClientMinerBuilder::new()
    }
}

/// The miner used for proof of work: a stateless function of the payload,
/// the target score, and the local/remote configuration flag.
pub struct ClientMiner {
    pub local_pow: bool,
}

impl ClientMiner {
    /// Provides the nonce for `bytes` at `target_score`. When configured for
    /// remote delegation this is always the zero nonce, signalling that the
    /// issuing node must perform the work. When configured locally, the
    /// search runs on one worker per available processing unit and any
    /// returned nonce makes the message reach the demanded trailing-zero
    /// count; an unreachable demand is the one failure, surfaced as
    /// `ProofOfWorkFailed`.
    pub fn nonce(&self, bytes: &[u8], target_score: u32) -> (r: Result<u64, Error>)
        ensures
            !self.local_pow ==> r == Ok::<u64, Error>(0u64),
            self.local_pow ==> (r matches Ok(n) ==> pow_trailing_zeros(bytes@ + u64_le_bytes(n))
                >= pow_target_zeros(bytes@.len() + 8, target_score)),
            r is Err <==> self.local_pow && pow_target_zeros(bytes@.len() + 8, target_score)
                > POW_HASH_LENGTH,
            r is Err ==> r matches Err(Error::ProofOfWorkFailed),
    {
        if self.local_pow {
            let workers = available_processing_units();
            match mine_nonce(bytes, target_score, workers) {
                Some(n) => Ok(n),
                None => Err(Error::ProofOfWorkFailed),
            }
        } else {
            Ok(0)
        }
    }
}

} // verus!
