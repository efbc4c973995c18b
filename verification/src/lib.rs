//! A verified client coordination layer for a distributed-ledger network of
//! independent nodes: node-pool health tracking, proof-of-work dispatch,
//! gap-limit unspent-address discovery, and message promote/reattach/retry
//! decisions.

mod client;
mod codec;
mod discovery;
mod error;
mod lifecycle;
mod message;
mod network;
mod node_pool;
mod outputs;
mod pow;

pub use client::{
    default_broker_automatic_disconnect, default_broker_timeout, health_from_status,
    AddressBalancePair, BrokerOptions, Client, ClientBuilder, TopicEvent,
};
pub use codec::{
    copy_bytes, decode_hex, encode_hex, hex_decoded, hex_digit_of, hex_digit_value, hex_encoded,
    hex_ok, is_hex_digit, lemma_hex_round_trip, read_u64_le, u16_from_le, u16_le_bytes,
    u64_from_le, u64_le_bytes, write_u16_le, write_u64_le,
};
pub use discovery::{
    first_zero_at, scan_balances, zero_free_prefix, Address, DerivationPath,
    GetUnspentAddressBuilder, UnspentScan, GAP_LIMIT,
};
pub use error::Error;
pub use lifecycle::{ascii_chars, build_promote, build_reattach, retry_decision, RetryDecision};
pub use message::{
    contains_id, dedup_ids, parse_tips, seq_has_id, Message, MessageId, MessageMetadata,
    TipContext,
};
pub use network::{
    blake2b256_digest, lemma_network_id_deterministic, network_id_from_name, network_id_of,
};
pub use node_pool::{
    probe_selected, probe_selected_upto, seq_has_addr, HealthySet, SyncAction, SyncEvent,
    Synchronizer,
};
pub use outputs::{
    contains_output, dedup_outputs, output_index_hex, parse_output, parse_output_id,
    seq_has_output, OutputId, OutputMetadata, ED25519_ADDRESS_TYPE,
};
pub use pow::{
    pow_target_zeros, pow_trailing_zeros, ClientMiner, ClientMinerBuilder, POW_HASH_LENGTH,
};
