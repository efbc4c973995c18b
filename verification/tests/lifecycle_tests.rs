use iota_client::{
    dedup_ids, parse_tips, Client, Error, Message, MessageId, MessageMetadata, RetryDecision,
    TipContext,
};

fn id_of(byte: u8) -> MessageId {
    MessageId::from_bytes(vec![byte; 32]).unwrap()
}

fn context(tip_byte: u8, network_id: u64) -> TipContext {
    TipContext { tip1: id_of(tip_byte), tip2: id_of(tip_byte.wrapping_add(1)), network_id }
}

#[test]
fn message_id_hex_round_trip() {
    let id = MessageId::from_hex(b"a5a5a5a5a5a5a5a5a5a5a5a5a5a5a5a5a5a5a5a5a5a5a5a5a5a5a5a5a5a5a5a5")
        .unwrap();
    assert_eq!(id.bytes, vec![0xa5; 32]);
    assert_eq!(
        id.to_hex(),
        b"a5a5a5a5a5a5a5a5a5a5a5a5a5a5a5a5a5a5a5a5a5a5a5a5a5a5a5a5a5a5a5a5".to_vec()
    );
}

#[test]
fn message_id_wrong_length_fails() {
    assert!(matches!(MessageId::from_bytes(vec![1; 31]), Err(Error::InvalidParameter(_))));
    assert!(matches!(MessageId::from_hex(b"abcd"), Err(Error::InvalidParameter(_))));
}

#[test]
fn parse_tips_accepts_two_valid_ids() {
    let tip1 = [b'0'; 64];
    let tip2 = [b'f'; 64];
    let (first, second) = parse_tips(&tip1, &tip2).unwrap();
    assert_eq!(first.bytes, vec![0x00; 32]);
    assert_eq!(second.bytes, vec![0xff; 32]);
}

#[test]
fn parse_tips_rejects_bad_hex() {
    let good = [b'0'; 64];
    let bad = [b'g'; 64];
    assert!(matches!(parse_tips(&good, &bad), Err(Error::InvalidParameter(_))));
}

#[test]
fn retry_with_nothing_to_do_fails_without_posting() {
    let client = Client::builder().build();
    let id = id_of(0xab);
    let metadata = MessageMetadata { should_promote: Some(false), should_reattach: Some(false) };
    match client.retry(&id, &metadata) {
        Err(Error::NoNeedPromoteOrReattach(hex)) => {
            assert_eq!(hex, "ab".repeat(32));
        }
        _ => panic!("expected NoNeedPromoteOrReattach"),
    }
}

#[test]
fn retry_with_absent_flags_counts_them_false() {
    let client = Client::builder().build();
    let metadata = MessageMetadata { should_promote: None, should_reattach: None };
    assert!(matches!(
        client.retry(&id_of(1), &metadata),
        Err(Error::NoNeedPromoteOrReattach(_))
    ));
}

#[test]
fn retry_prefers_promotion() {
    let client = Client::builder().build();
    let metadata = MessageMetadata { should_promote: Some(true), should_reattach: Some(true) };
    assert_eq!(client.retry(&id_of(1), &metadata).unwrap(), RetryDecision::Promote);
    let metadata = MessageMetadata { should_promote: Some(false), should_reattach: Some(true) };
    assert_eq!(client.retry(&id_of(1), &metadata).unwrap(), RetryDecision::Reattach);
}

#[test]
fn promote_builds_an_empty_message_on_fresh_tips() {
    let client = Client::builder().build();
    let original = id_of(0x11);
    let ctx = context(0x22, 77);
    let message = client.promote(&original, &ctx);
    assert_eq!(message.network_id, 77);
    assert_eq!(message.parent1.bytes, vec![0x22; 32]);
    assert_eq!(message.parent2.bytes, vec![0x11; 32]);
    assert!(message.payload.is_none());
}

#[test]
fn promote_uses_the_tips_of_this_call_only() {
    // A fake tip source returning different values per call: each promotion
    // must carry the tips fetched for it, never an earlier pair.
    let client = Client::builder().build();
    let original = id_of(0x11);
    let first = client.promote(&original, &context(0x41, 9));
    let second = client.promote(&original, &context(0x42, 9));
    assert_eq!(first.parent1.bytes, vec![0x41; 32]);
    assert_eq!(second.parent1.bytes, vec![0x42; 32]);
}

#[test]
fn reattach_keeps_the_payload_under_fresh_parents() {
    let client = Client::builder().build();
    let original = Message {
        network_id: 1,
        parent1: id_of(0x01),
        parent2: id_of(0x02),
        payload: Some(vec![9, 9, 9]),
    };
    let ctx = context(0x33, 55);
    let message = client.reattach(&original, &ctx).unwrap();
    assert_eq!(message.network_id, 55);
    assert_eq!(message.parent1.bytes, vec![0x33; 32]);
    assert_eq!(message.parent2.bytes, vec![0x34; 32]);
    assert_eq!(message.payload.unwrap(), vec![9, 9, 9]);
}

#[test]
fn reattach_without_payload_fails() {
    let client = Client::builder().build();
    let original = Message {
        network_id: 1,
        parent1: id_of(0x01),
        parent2: id_of(0x02),
        payload: None,
    };
    assert!(matches!(
        client.reattach(&original, &context(0x33, 55)),
        Err(Error::MissingPayload)
    ));
}

#[test]
fn dedup_keeps_one_of_each_identifier() {
    let ids = vec![id_of(1), id_of(2), id_of(1), id_of(3), id_of(2)];
    let unique = dedup_ids(&ids);
    assert_eq!(unique.len(), 3);
    assert_eq!(unique[0].bytes, vec![1; 32]);
    assert_eq!(unique[1].bytes, vec![2; 32]);
    assert_eq!(unique[2].bytes, vec![3; 32]);
}
