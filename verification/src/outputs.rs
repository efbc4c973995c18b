//! Reading output descriptions reported by a node: the address-type check,
//! the hexadecimal identifier fields, and the hexadecimal form of an output
//! index used to address one output of a transaction.

use vstd::prelude::*;

use crate::codec::{
    copy_bytes, decode_hex, encode_hex, hex_decoded, hex_encoded, hex_ok, u16_from_le,
    u16_le_bytes, write_u16_le,
};
use crate::discovery::Address;
use crate::error::Error;

verus! {

/// The address-type tag of an Ed25519 address in an output description.
pub const ED25519_ADDRESS_TYPE: u8 = 1;

/// One output as a node reports it, with its identifiers decoded.
pub struct OutputMetadata {
    pub message_id: Vec<u8>,
    pub transaction_id: Vec<u8>,
    pub output_index: u16,
    pub is_spent: bool,
    pub amount: u64,
    pub address: Address,
}

/// Reads a raw output description. The identifier fields must be valid
/// hexadecimal; the output must be of the plain type carrying an Ed25519
/// address, whose hexadecimal form must decode to 32 bytes — any other
/// address type fails with `InvalidParameter`, as does malformed
/// hexadecimal.
pub fn parse_output(
    message_id_hex: &[u8],
    transaction_id_hex: &[u8],
    output_index: u16,
    is_spent: bool,
    amount: u64,
    output_type: u8,
    address_type: u8,
    address_hex: &[u8],
) -> (r: Result<OutputMetadata, Error>)
    ensures
        r is Ok <==> (hex_ok(message_id_hex@) && hex_ok(transaction_id_hex@) && output_type == 0
            && address_type == ED25519_ADDRESS_TYPE && hex_ok(address_hex@)
            && address_hex@.len() == 64),
        r matches Ok(o) ==> o.message_id@ == hex_decoded(message_id_hex@) && o.transaction_id@
            == hex_decoded(transaction_id_hex@) && o.output_index == output_index && o.is_spent
            == is_spent && o.amount == amount && o.address.kind == ED25519_ADDRESS_TYPE
            && o.address.bytes@ == hex_decoded(address_hex@) && o.address.wf(),
        r is Err ==> r matches Err(Error::InvalidParameter(_)),
{
    let message_id = decode_hex(message_id_hex)?;
    let transaction_id = decode_hex(transaction_id_hex)?;
    if !(output_type == 0 && address_type == ED25519_ADDRESS_TYPE) {
        return Err(Error::InvalidParameter(String::from_str("address type")));
    }
    if address_hex.len() != 64 {
        return Err(Error::InvalidParameter(String::from_str("address length")));
    }
    let address_bytes = decode_hex(address_hex)?;
    Ok(
        OutputMetadata {
            message_id,
            transaction_id,
            output_index,
            is_spent,
            amount,
            address: Address { kind: ED25519_ADDRESS_TYPE, bytes: address_bytes },
        },
    )
}

/// A reference to one output of a transaction: the transaction identifier
/// and the index of the output within it.
pub struct OutputId {
    pub transaction_id: Vec<u8>,
    pub index: u16,
}

impl OutputId {
    /// True when the transaction identifier has its full 32 bytes.
    pub open spec fn wf(&self) -> bool {
        self.transaction_id@.len() == 32
    }

    /// True when the two references name the same output.
    pub fn eq_output(&self, other: &OutputId) -> (r: bool)
        ensures
            r <==> (self.transaction_id@ == other.transaction_id@ && self.index == other.index),
    {
        if self.index != other.index {
            return false;
        }
        if self.transaction_id.len() != other.transaction_id.len() {
            proof {
                assert(self.transaction_id@.len() != other.transaction_id@.len());
            }
            return false;
        }
        let mut i: usize = 0;
        while i < self.transaction_id.len()
            invariant
                i <= self.transaction_id@.len(),
                self.transaction_id@.len() == other.transaction_id@.len(),
                self.index == other.index,
                forall|j: int| 0 <= j < i ==> self.transaction_id@[j] == other.transaction_id@[j],
            decreases self.transaction_id@.len() - i,
        {
            if self.transaction_id[i] != other.transaction_id[i] {
                return false;
            }
            i = i + 1;
        }
        proof {
            assert(self.transaction_id@ =~= other.transaction_id@);
        }
        true
    }
}

impl Clone for OutputId {
    /// A copy naming the same output.
    fn clone(&self) -> (r: Self)
        ensures
            r.transaction_id@ == self.transaction_id@,
            r.index == self.index,
    {
        OutputId { transaction_id: copy_bytes(&self.transaction_id), index: self.index }
    }
}

/// True when `s` holds a reference to the output of transaction `tx` at
/// index `index`.
pub open spec fn seq_has_output(s: Seq<OutputId>, tx: Seq<u8>, index: u16) -> bool {
    exists|m: int| 0 <= m < s.len() && s[m].transaction_id@ == tx && s[m].index == index
}

/// True when `v` holds a reference naming the same output as `output`.
pub fn contains_output(v: &Vec<OutputId>, output: &OutputId) -> (b: bool)
    ensures
        b <==> seq_has_output(v@, output.transaction_id@, output.index),
{
    let mut i: usize = 0;
    while i < v.len()
        invariant
            i <= v@.len(),
            forall|j: int|
                0 <= j < i ==> !(#[trigger] v@[j].transaction_id@ == output.transaction_id@
                    && v@[j].index == output.index),
        decreases v@.len() - i,
    {
        if v[i].eq_output(output) {
            return true;
        }
        i = i + 1;
    }
    false
}

/// The output references of `outputs` with duplicates removed: every listed
/// output is named exactly once in the result, and nothing else is. A query
/// keyed by the result asks each node for each output once.
pub fn dedup_outputs(outputs: &Vec<OutputId>) -> (r: Vec<OutputId>)
    ensures
        forall|i: int|
            0 <= i < outputs@.len() ==> seq_has_output(
                r@,
                #[trigger] outputs@[i].transaction_id@,
                outputs@[i].index,
            ),
        forall|m: int|
            0 <= m < r@.len() ==> seq_has_output(
                outputs@,
                #[trigger] r@[m].transaction_id@,
                r@[m].index,
            ),
        forall|m: int, n: int|
            0 <= m < n < r@.len() ==> !(#[trigger] r@[m].transaction_id@ == #[trigger] r@[
                n
            ].transaction_id@ && r@[m].index == r@[n].index),
{
    let mut out: Vec<OutputId> = Vec::new();
    let mut k: usize = 0;
    while k < outputs.len()
        invariant
            k <= outputs@.len(),
            forall|i: int|
                0 <= i < k ==> seq_has_output(
                    out@,
                    #[trigger] outputs@[i].transaction_id@,
                    outputs@[i].index,
                ),
            forall|m: int|
                0 <= m < out@.len() ==> seq_has_output(
                    outputs@,
                    #[trigger] out@[m].transaction_id@,
                    out@[m].index,
                ),
            forall|m: int, n: int|
                0 <= m < n < out@.len() ==> !(#[trigger] out@[m].transaction_id@ == #[trigger] out@[
                    n
                ].transaction_id@ && out@[m].index == out@[n].index),
        decreases outputs@.len() - k,
    {
        let ghost old_out = out@;
        if !contains_output(&out, &outputs[k]) {
            out.push(outputs[k].clone());
            proof {
                assert(out@[old_out.len() as int].transaction_id@ == outputs@[
                    k as int
                ].transaction_id@ && out@[old_out.len() as int].index == outputs@[k as int].index);
                assert forall|m: int| 0 <= m < old_out.len() implies !(#[trigger] out@[
                    m
                ].transaction_id@ == out@[old_out.len() as int].transaction_id@ && out@[m].index
                    == out@[old_out.len() as int].index) by {
                    if old_out[m].transaction_id@ == outputs@[k as int].transaction_id@
                        && old_out[m].index == outputs@[k as int].index {
                        assert(seq_has_output(
                            old_out,
                            outputs@[k as int].transaction_id@,
                            outputs@[k as int].index,
                        ));
                    }
                }
            }
        }
        proof {
            assert forall|i: int| 0 <= i < k + 1 implies seq_has_output(
                out@,
                #[trigger] outputs@[i].transaction_id@,
                outputs@[i].index,
            ) by {
                if i < k {
                    let m = choose|m: int|
                        0 <= m < old_out.len() && old_out[m].transaction_id@ == outputs@[
                            i
                        ].transaction_id@ && old_out[m].index == outputs@[i].index;
                    assert(out@[m].transaction_id@ == outputs@[i].transaction_id@ && out@[m].index
                        == outputs@[i].index);
                } else {
                    if seq_has_output(
                        old_out,
                        outputs@[k as int].transaction_id@,
                        outputs@[k as int].index,
                    ) {
                        let m = choose|m: int|
                            0 <= m < old_out.len() && old_out[m].transaction_id@ == outputs@[
                                k as int
                            ].transaction_id@ && old_out[m].index == outputs@[k as int].index;
                        assert(out@[m].transaction_id@ == outputs@[i].transaction_id@
                            && out@[m].index == outputs@[i].index);
                    } else {
                        assert(out@[old_out.len() as int].transaction_id@ == outputs@[
                            i
                        ].transaction_id@ && out@[old_out.len() as int].index
                            == outputs@[i].index);
                    }
                }
            }
            assert forall|m: int| 0 <= m < out@.len() implies seq_has_output(
                outputs@,
                #[trigger] out@[m].transaction_id@,
                out@[m].index,
            ) by {
                if m < old_out.len() {
                    let i = choose|i: int|
                        0 <= i < outputs@.len() && outputs@[i].transaction_id@ == old_out[
                            m
                        ].transaction_id@ && outputs@[i].index == old_out[m].index;
                    assert(outputs@[i].transaction_id@ == out@[m].transaction_id@
                        && outputs@[i].index == out@[m].index);
                } else {
                    assert(outputs@[k as int].transaction_id@ == out@[m].transaction_id@
                        && outputs@[k as int].index == out@[m].index);
                }
            }
        }
        k = k + 1;
    }
    out
}

/// Parses the hexadecimal form of an output id as the address endpoint
/// reports it: 64 digits of transaction identifier followed by 4 digits of
/// little-endian output index. Fails with `InvalidParameter` exactly when
/// the input is not that form.
pub fn parse_output_id(s: &[u8]) -> (r: Result<OutputId, Error>)
    ensures
        r is Ok <==> hex_ok(s@) && s@.len() == 68,
        r matches Ok(o) ==> o.transaction_id@ == hex_decoded(s@).take(32) && o.index
            == u16_from_le(hex_decoded(s@).skip(32)) && o.wf(),
        r is Err ==> r matches Err(Error::InvalidParameter(_)),
{
    if s.len() != 68 {
        return Err(Error::InvalidParameter(String::from_str("output id length")));
    }
    let decoded = decode_hex(s)?;
    let mut transaction_id: Vec<u8> = Vec::new();
    let mut i: usize = 0;
    while i < 32
        invariant
            i <= 32,
            decoded@.len() == 34,
            transaction_id@ == decoded@.take(i as int),
        decreases 32 - i,
    {
        transaction_id.push(decoded[i]);
        proof {
            assert(transaction_id@ =~= decoded@.take(i + 1));
        }
        i = i + 1;
    }
    let index: u16 = decoded[32] as u16 + decoded[33] as u16 * 0x100;
    proof {
        assert(decoded@.skip(32)[0] == decoded@[32]);
        assert(decoded@.skip(32)[1] == decoded@[33]);
    }
    Ok(OutputId { transaction_id, index })
}

/// The hexadecimal form of an output index as it stands in an output id:
/// the index in little-endian bytes, hex-encoded.
pub fn output_index_hex(index: u16) -> (r: Vec<u8>)
    ensures
        r@ == hex_encoded(u16_le_bytes(index)),
        r@.len() == 4,
{
    let le = write_u16_le(index);
    encode_hex(le.as_slice())
}

} // verus!
