use iota_client::{decode_hex, encode_hex, output_index_hex, read_u64_le, write_u16_le, write_u64_le, Error};

#[test]
fn decode_valid_hex() {
    let decoded = decode_hex(b"00ff10ab").unwrap();
    assert_eq!(decoded, vec![0x00, 0xff, 0x10, 0xab]);
}

#[test]
fn decode_mixed_case_hex() {
    let decoded = decode_hex(b"DeadBEEF").unwrap();
    assert_eq!(decoded, vec![0xde, 0xad, 0xbe, 0xef]);
}

#[test]
fn decode_odd_length_fails() {
    let r = decode_hex(b"abc");
    assert!(matches!(r, Err(Error::InvalidParameter(_))));
}

#[test]
fn decode_non_digit_fails() {
    let r = decode_hex(b"zz");
    assert!(matches!(r, Err(Error::InvalidParameter(_))));
}

#[test]
fn encode_is_lower_case() {
    let encoded = encode_hex(&[0xde, 0xad, 0xbe, 0xef]);
    assert_eq!(encoded, b"deadbeef".to_vec());
}

#[test]
fn encode_matches_reference_implementation() {
    let data: Vec<u8> = (0u16..=255).map(|b| b as u8).collect();
    let ours = encode_hex(&data);
    let reference = hex::encode(&data).into_bytes();
    assert_eq!(ours, reference);
}

#[test]
fn decode_matches_reference_implementation() {
    let text = b"000102030405060708090a0b0c0d0e0f102030ff";
    let ours = decode_hex(text).unwrap();
    let reference = hex::decode(&text[..]).unwrap();
    assert_eq!(ours, reference);
}

#[test]
fn hex_round_trip() {
    let data = vec![7u8, 0, 255, 128, 33];
    let round = decode_hex(&encode_hex(&data)).unwrap();
    assert_eq!(round, data);
}

#[test]
fn read_u64_little_endian() {
    let bytes = [0x01, 0x00, 0x00, 0x00, 0x00, 0x00, 0x00, 0x80];
    assert_eq!(read_u64_le(&bytes), 0x8000_0000_0000_0001);
    let ones = [0xff; 8];
    assert_eq!(read_u64_le(&ones), u64::MAX);
}

#[test]
fn write_u64_little_endian() {
    let bytes = write_u64_le(0x0102_0304_0506_0708);
    assert_eq!(bytes, vec![0x08, 0x07, 0x06, 0x05, 0x04, 0x03, 0x02, 0x01]);
    assert_eq!(read_u64_le(&bytes), 0x0102_0304_0506_0708);
}

#[test]
fn write_u16_little_endian() {
    assert_eq!(write_u16_le(1), vec![0x01, 0x00]);
    assert_eq!(write_u16_le(0xabcd), vec![0xcd, 0xab]);
}

#[test]
fn output_index_hex_form() {
    assert_eq!(output_index_hex(1), b"0100".to_vec());
    assert_eq!(output_index_hex(0x1234), b"3412".to_vec());
}
