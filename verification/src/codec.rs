//! Byte-level codecs used at the node interface: hexadecimal encoding and
//! decoding of identifiers, and little-endian reading of 64-bit integers.

use vstd::prelude::*;

use crate::error::Error;

verus! {

/// True when `b` is the ASCII code of a hexadecimal digit.
pub open spec fn is_hex_digit(b: u8) -> bool {
    (48 <= b && b <= 57)  // '0'..'9'
    || (97 <= b && b <= 102)  // 'a'..'f'
    || (65 <= b && b <= 70)  // 'A'..'F'
}

/// The numeric value of the hexadecimal digit with ASCII code `b`.
pub open spec fn hex_digit_value(b: u8) -> u8
    recommends
        is_hex_digit(b),
{
    if 48 <= b && b <= 57 {
        (b - 48) as u8
    } else if 97 <= b && b <= 102 {
        (b - 87) as u8
    } else {
        (b - 55) as u8
    }
}

/// True when `s` is a well-formed hexadecimal string: even length, all digits.
pub open spec fn hex_ok(s: Seq<u8>) -> bool {
    s.len() % 2 == 0 && (forall|i: int| 0 <= i < s.len() ==> is_hex_digit(#[trigger] s[i]))
}

/// The bytes denoted by the hexadecimal string `s`, two digits per byte.
pub open spec fn hex_decoded(s: Seq<u8>) -> Seq<u8>
    decreases s.len(),
{
    if s.len() < 2 {
        seq![]
    } else {
        seq![((hex_digit_value(s[0]) * 16 + hex_digit_value(s[1])) as u8)] + hex_decoded(
            s.skip(2),
        )
    }
}

/// The ASCII code of the lower-case hexadecimal digit for value `v`.
pub open spec fn hex_digit_of(v: u8) -> u8
    recommends
        v < 16,
{
    if v < 10 {
        (48 + v) as u8
    } else {
        (87 + v) as u8
    }
}

/// The lower-case hexadecimal string denoting `data`, two digits per byte.
pub open spec fn hex_encoded(data: Seq<u8>) -> Seq<u8>
    decreases data.len(),
{
    if data.len() == 0 {
        seq![]
    } else {
        seq![hex_digit_of(data[0] / 16), hex_digit_of((data[0] % 16) as u8)] + hex_encoded(
            data.skip(1),
        )
    }
}

/// An owned copy of a byte vector.
pub fn copy_bytes(src: &Vec<u8>) -> (r: Vec<u8>)
    ensures
        r@ == src@,
{
    let mut out: Vec<u8> = Vec::new();
    let mut i: usize = 0;
    while i < src.len()
        invariant
            i <= src@.len(),
            out@ == src@.take(i as int),
        decreases src@.len() - i,
    {
        out.push(src[i]);
        proof {
            assert(out@ =~= src@.take(i + 1));
        }
        i = i + 1;
    }
    proof {
        assert(src@.take(i as int) =~= src@);
    }
    out
}

/// The numeric value of one hexadecimal digit byte, or `None` for any other byte.
fn hex_digit(b: u8) -> (r: Option<u8>)
    ensures
        r is Some <==> is_hex_digit(b),
        r is Some ==> r == Some(hex_digit_value(b)),
{
    if 48 <= b && b <= 57 {
        Some(b - 48)
    } else if 97 <= b && b <= 102 {
        Some(b - 87)
    } else if 65 <= b && b <= 70 {
        Some(b - 55)
    } else {
        None
    }
}

/// Decodes a hexadecimal byte string. Fails with `InvalidParameter` exactly
/// when the input has odd length or holds a non-digit byte.
pub fn decode_hex(s: &[u8]) -> (r: Result<Vec<u8>, Error>)
    ensures
        r is Ok <==> hex_ok(s@),
        r is Ok ==> r.unwrap()@ == hex_decoded(s@) && r.unwrap()@.len() == s@.len() / 2,
        r is Err ==> r matches Err(Error::InvalidParameter(_)),
{
    if s.len() % 2 != 0 {
        return Err(Error::InvalidParameter(String::from_str("hex length")));
    }
    let mut out: Vec<u8> = Vec::new();
    let mut i: usize = 0;
    proof {
        assert(s@.skip(0) == s@);
    }
    while i < s.len()
        invariant
            i % 2 == 0,
            i <= s@.len(),
            s@.len() % 2 == 0,
            out@.len() == i / 2,
            hex_decoded(s@) == out@ + hex_decoded(s@.skip(i as int)),
            forall|j: int| 0 <= j < i ==> is_hex_digit(#[trigger] s@[j]),
        decreases s@.len() - i,
    {
        let hi = match hex_digit(s[i]) {
            Some(v) => v,
            None => {
                return Err(Error::InvalidParameter(String::from_str("hex digit")));
            },
        };
        let lo = match hex_digit(s[i + 1]) {
            Some(v) => v,
            None => {
                return Err(Error::InvalidParameter(String::from_str("hex digit")));
            },
        };
        proof {
            assert(s@.skip(i as int).skip(2) =~= s@.skip(i + 2));
            assert(s@.skip(i as int)[0] == s@[i as int]);
            assert(s@.skip(i as int)[1] == s@[i as int + 1]);
        }
        out.push(hi * 16 + lo);
        i = i + 2;
    }
    proof {
        assert(s@.skip(i as int) =~= Seq::<u8>::empty());
        assert(hex_decoded(s@) =~= out@);
    }
    Ok(out)
}

/// Encodes bytes as a lower-case hexadecimal byte string, two digits per byte.
pub fn encode_hex(data: &[u8]) -> (r: Vec<u8>)
    ensures
        r@ == hex_encoded(data@),
        r@.len() == 2 * data@.len(),
{
    let mut out: Vec<u8> = Vec::new();
    let mut i: usize = 0;
    proof {
        assert(data@.skip(0) == data@);
    }
    while i < data.len()
        invariant
            i <= data@.len(),
            out@.len() == 2 * i,
            hex_encoded(data@) == out@ + hex_encoded(data@.skip(i as int)),
        decreases data@.len() - i,
    {
        let b = data[i];
        proof {
            assert(data@.skip(i as int).skip(1) =~= data@.skip(i + 1));
            assert(data@.skip(i as int)[0] == data@[i as int]);
        }
        out.push(hex_digit_of_exec(b / 16));
        out.push(hex_digit_of_exec(b % 16));
        i = i + 1;
    }
    proof {
        assert(data@.skip(i as int) =~= Seq::<u8>::empty());
        assert(hex_encoded(data@) =~= out@);
    }
    out
}

/// Law: a hexadecimal encoding is always well-formed, twice as long as the
/// data, and decoding it gives the encoded bytes back.
pub proof fn lemma_hex_round_trip(data: Seq<u8>)
    ensures
        hex_encoded(data).len() == 2 * data.len(),
        hex_ok(hex_encoded(data)),
        hex_decoded(hex_encoded(data)) == data,
    decreases data.len(),
{
    let e = hex_encoded(data);
    if data.len() == 0 {
        assert(hex_decoded(e) =~= data);
    } else {
        lemma_hex_round_trip(data.skip(1));
        let rest = hex_encoded(data.skip(1));
        assert(e.skip(2) =~= rest);
        assert forall|i: int| 0 <= i < e.len() implies is_hex_digit(#[trigger] e[i]) by {
            if i >= 2 {
                assert(e[i] == rest[i - 2]);
            } else {
                assert(is_hex_digit(hex_digit_of((data[0] / 16) as u8)));
                assert(is_hex_digit(hex_digit_of((data[0] % 16) as u8)));
            }
        }
        assert(hex_digit_value(hex_digit_of((data[0] / 16) as u8)) == data[0] / 16);
        assert(hex_digit_value(hex_digit_of((data[0] % 16) as u8)) == data[0] % 16);
        assert((data[0] / 16) * 16 + (data[0] % 16) == data[0]);
        assert(hex_decoded(e) =~= data);
    }
}

/// The lower-case hexadecimal digit for value `v`.
fn hex_digit_of_exec(v: u8) -> (r: u8)
    requires
        v < 16,
    ensures
        r == hex_digit_of(v),
{
    if v < 10 {
        48 + v
    } else {
        87 + v
    }
}

/// The value of `s` read as a little-endian 64-bit integer.
pub open spec fn u64_from_le(s: Seq<u8>) -> u64
    recommends
        s.len() == 8,
{
    (s[0] + s[1] * 0x100 + s[2] * 0x1_0000 + s[3] * 0x100_0000 + s[4] * 0x1_0000_0000 + s[5]
        * 0x100_0000_0000 + s[6] * 0x1_0000_0000_0000 + s[7] * 0x100_0000_0000_0000) as u64
}

/// Reads the first eight bytes of `s` as a little-endian 64-bit integer.
pub fn read_u64_le(s: &[u8]) -> (r: u64)
    requires
        s@.len() >= 8,
    ensures
        r == u64_from_le(s@.take(8)),
{
    let r = s[0] as u64 + s[1] as u64 * 0x100 + s[2] as u64 * 0x1_0000 + s[3] as u64 * 0x100_0000
        + s[4] as u64 * 0x1_0000_0000 + s[5] as u64 * 0x100_0000_0000 + s[6] as u64
        * 0x1_0000_0000_0000 + s[7] as u64 * 0x100_0000_0000_0000;
    proof {
        assert(s@.take(8)[0] == s@[0]);
        assert(s@.take(8)[1] == s@[1]);
        assert(s@.take(8)[2] == s@[2]);
        assert(s@.take(8)[3] == s@[3]);
        assert(s@.take(8)[4] == s@[4]);
        assert(s@.take(8)[5] == s@[5]);
        assert(s@.take(8)[6] == s@[6]);
        assert(s@.take(8)[7] == s@[7]);
    }
    r
}

/// The little-endian eight-byte form of `v`.
pub open spec fn u64_le_bytes(v: u64) -> Seq<u8> {
    seq![
        (v & 0xff) as u8,
        ((v >> 8) & 0xff) as u8,
        ((v >> 16) & 0xff) as u8,
        ((v >> 24) & 0xff) as u8,
        ((v >> 32) & 0xff) as u8,
        ((v >> 40) & 0xff) as u8,
        ((v >> 48) & 0xff) as u8,
        ((v >> 56) & 0xff) as u8,
    ]
}

/// Writes `v` as its little-endian eight-byte form.
pub fn write_u64_le(v: u64) -> (r: Vec<u8>)
    ensures
        r@ == u64_le_bytes(v),
        r@.len() == 8,
{
    let mut out: Vec<u8> = Vec::new();
    out.push((v & 0xff) as u8);
    out.push(((v >> 8) & 0xff) as u8);
    out.push(((v >> 16) & 0xff) as u8);
    out.push(((v >> 24) & 0xff) as u8);
    out.push(((v >> 32) & 0xff) as u8);
    out.push(((v >> 40) & 0xff) as u8);
    out.push(((v >> 48) & 0xff) as u8);
    out.push(((v >> 56) & 0xff) as u8);
    proof {
        assert(out@ =~= u64_le_bytes(v));
    }
    out
}

/// The little-endian two-byte form of `v`.
pub open spec fn u16_le_bytes(v: u16) -> Seq<u8> {
    seq![(v & 0xff) as u8, ((v >> 8) & 0xff) as u8]
}

/// The value of `s` read as a little-endian 16-bit integer.
pub open spec fn u16_from_le(s: Seq<u8>) -> u16
    recommends
        s.len() == 2,
{
    (s[0] + s[1] * 0x100) as u16
}

/// Writes `v` as its little-endian two-byte form.
pub fn write_u16_le(v: u16) -> (r: Vec<u8>)
    ensures
        r@ == u16_le_bytes(v),
        r@.len() == 2,
{
    let mut out: Vec<u8> = Vec::new();
    out.push((v & 0xff) as u8);
    out.push(((v >> 8) & 0xff) as u8);
    proof {
        assert(out@ =~= u16_le_bytes(v));
    }
    out
}

} // verus!
