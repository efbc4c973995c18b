use blake2::{Blake2b256, Digest};
use iota_client::{
    dedup_outputs, health_from_status, output_index_hex, parse_output, parse_output_id, Address,
    BrokerOptions, Client, ClientMiner, ClientMinerBuilder, Error, OutputId,
    default_broker_automatic_disconnect, default_broker_timeout,
};

#[test]
fn parse_output_id_splits_transaction_and_index() {
    let mut id_hex = vec![b'7'; 64];
    id_hex.extend_from_slice(b"3412");
    let output = parse_output_id(&id_hex).unwrap();
    assert_eq!(output.transaction_id, vec![0x77; 32]);
    assert_eq!(output.index, 0x1234);
    // The parser inverts the index encoding used when addressing an output.
    assert_eq!(output_index_hex(output.index), b"3412".to_vec());
}

#[test]
fn parse_output_id_rejects_malformed_input() {
    assert!(matches!(parse_output_id(&[b'a'; 67]), Err(Error::InvalidParameter(_))));
    let mut bad = vec![b'z'; 64];
    bad.extend_from_slice(b"0000");
    assert!(matches!(parse_output_id(&bad), Err(Error::InvalidParameter(_))));
}

#[test]
fn health_follows_the_status_code() {
    assert!(health_from_status(200));
    assert!(!health_from_status(404));
    assert!(!health_from_status(503));
}

#[test]
fn dedup_outputs_keys_by_transaction_and_index() {
    let outputs = vec![
        OutputId { transaction_id: vec![1; 32], index: 0 },
        OutputId { transaction_id: vec![1; 32], index: 1 },
        OutputId { transaction_id: vec![1; 32], index: 0 },
        OutputId { transaction_id: vec![2; 32], index: 0 },
    ];
    let unique = dedup_outputs(&outputs);
    assert_eq!(unique.len(), 3);
    assert_eq!(unique[0].transaction_id, vec![1; 32]);
    assert_eq!(unique[0].index, 0);
    assert_eq!(unique[1].index, 1);
    assert_eq!(unique[2].transaction_id, vec![2; 32]);
}

#[test]
fn network_id_is_deterministic() {
    let client = Client::builder().build();
    let first = client.get_network_id("testnet7");
    let second = client.get_network_id("testnet7");
    assert_eq!(first, second);
    assert_ne!(first, client.get_network_id("testnet8"));
}

#[test]
fn network_id_is_the_truncated_digest() {
    let client = Client::builder().build();
    let derived = client.get_network_id("alphanet1");
    let mut hasher = Blake2b256::new();
    hasher.update("alphanet1".as_bytes());
    let digest = hasher.finalize();
    let expected = u64::from_le_bytes(digest[0..8].try_into().unwrap());
    assert_eq!(derived, expected);
}

#[test]
fn remote_pow_always_returns_the_zero_nonce() {
    let miner = ClientMinerBuilder::new().with_local_pow(false).finish();
    assert_eq!(miner.nonce(&[1, 2, 3, 4], 4000).unwrap(), 0);
    assert_eq!(miner.nonce(&[], 4000).unwrap(), 0);
}

#[test]
fn local_pow_reaches_the_target_score() {
    let payload = vec![0x52u8; 24];
    let target_score: u32 = 80;
    let miner = ClientMinerBuilder::new().with_local_pow(true).finish();
    let nonce = miner.nonce(&payload, target_score).unwrap();
    let mut message = payload.clone();
    message.extend_from_slice(&nonce.to_le_bytes());
    let score = bee_pow::score::PoWScorer::new().score(&message);
    assert!(score >= target_score as f64);
}

#[test]
fn pow_provider_follows_the_client_setting() {
    let local = Client::builder().with_local_pow(true).build().get_pow_provider();
    let remote = Client::builder().with_local_pow(false).build().get_pow_provider();
    assert!(local.local_pow);
    assert!(!remote.local_pow);
    let _: ClientMiner = local;
}

#[test]
fn broker_options_defaults_and_setters() {
    assert!(default_broker_automatic_disconnect());
    assert_eq!(default_broker_timeout(), 30_000);
    let options = BrokerOptions::new();
    assert!(options.automatic_disconnect);
    assert_eq!(options.timeout_millis, 30_000);
    let options = BrokerOptions::default().automatic_disconnect(false).timeout(5_000);
    assert!(!options.automatic_disconnect);
    assert_eq!(options.timeout_millis, 5_000);
}

#[test]
fn parse_output_reads_an_ed25519_output() {
    let message_id_hex = [b'1'; 64];
    let transaction_id_hex = [b'2'; 64];
    let address_hex = [b'3'; 64];
    let output = parse_output(
        &message_id_hex,
        &transaction_id_hex,
        4,
        false,
        1_000_000,
        0,
        1,
        &address_hex,
    )
    .unwrap();
    assert_eq!(output.message_id, vec![0x11; 32]);
    assert_eq!(output.transaction_id, vec![0x22; 32]);
    assert_eq!(output.output_index, 4);
    assert!(!output.is_spent);
    assert_eq!(output.amount, 1_000_000);
    assert_eq!(output.address.kind, 1);
    assert_eq!(output.address.bytes, vec![0x33; 32]);
}

#[test]
fn parse_output_rejects_other_address_types() {
    let hex64 = [b'0'; 64];
    let r = parse_output(&hex64, &hex64, 0, false, 1, 0, 2, &hex64);
    assert!(matches!(r, Err(Error::InvalidParameter(_))));
    let r = parse_output(&hex64, &hex64, 0, false, 1, 1, 1, &hex64);
    assert!(matches!(r, Err(Error::InvalidParameter(_))));
}

#[test]
fn parse_output_rejects_bad_hex() {
    let hex64 = [b'0'; 64];
    let bad = [b'x'; 64];
    assert!(matches!(
        parse_output(&bad, &hex64, 0, false, 1, 0, 1, &hex64),
        Err(Error::InvalidParameter(_))
    ));
    assert!(matches!(
        parse_output(&hex64, &hex64, 0, false, 1, 0, 1, &bad),
        Err(Error::InvalidParameter(_))
    ));
}

#[test]
fn address_balances_pair_in_order() {
    let client = Client::builder().build();
    let addresses = vec![
        Address { kind: 1, bytes: vec![1; 32] },
        Address { kind: 1, bytes: vec![2; 32] },
    ];
    let pairs = client.get_address_balances(&addresses, &vec![10, 0]);
    assert_eq!(pairs.len(), 2);
    assert_eq!(pairs[0].address.bytes, vec![1; 32]);
    assert_eq!(pairs[0].balance, 10);
    assert_eq!(pairs[1].address.bytes, vec![2; 32]);
    assert_eq!(pairs[1].balance, 0);
}
