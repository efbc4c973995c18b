//! The value types that run through the message lifecycle: identifiers,
//! messages, server-reported metadata, tips, and output descriptions.

use vstd::prelude::*;

use crate::codec::{
    copy_bytes, decode_hex, encode_hex, hex_decoded, hex_encoded, hex_ok,
};
use crate::error::Error;

verus! {

/// A 32-byte message identifier.
pub struct MessageId {
    pub bytes: Vec<u8>,
}

impl View for MessageId {
    type V = Seq<u8>;

    open spec fn view(&self) -> Seq<u8> {
        self.bytes@
    }
}

impl MessageId {
    /// True when the identifier has its full 32 bytes.
    pub open spec fn wf(&self) -> bool {
        self@.len() == 32
    }

    /// Builds an identifier from raw bytes; fails with `InvalidParameter`
    /// exactly when the input is not 32 bytes long.
    pub fn from_bytes(bytes: Vec<u8>) -> (r: Result<MessageId, Error>)
        ensures
            r is Ok <==> bytes@.len() == 32,
            r matches Ok(id) ==> id@ == bytes@ && id.wf(),
            r is Err ==> r matches Err(Error::InvalidParameter(_)),
    {
        if bytes.len() == 32 {
            Ok(MessageId { bytes })
        } else {
            Err(Error::InvalidParameter(String::from_str("message id length")))
        }
    }

    /// Parses the 64-digit hexadecimal form of an identifier; fails with
    /// `InvalidParameter` exactly when the input is not that form.
    pub fn from_hex(s: &[u8]) -> (r: Result<MessageId, Error>)
        ensures
            r is Ok <==> hex_ok(s@) && s@.len() == 64,
            r matches Ok(id) ==> id@ == hex_decoded(s@) && id.wf(),
            r is Err ==> r matches Err(Error::InvalidParameter(_)),
    {
        if s.len() != 64 {
            return Err(Error::InvalidParameter(String::from_str("message id length")));
        }
        let decoded = decode_hex(s)?;
        Ok(MessageId { bytes: decoded })
    }

    /// The lower-case hexadecimal form of the identifier.
    pub fn to_hex(&self) -> (r: Vec<u8>)
        ensures
            r@ == hex_encoded(self@),
    {
        encode_hex(self.bytes.as_slice())
    }

    /// True when the two identifiers hold the same bytes.
    pub fn eq_id(&self, other: &MessageId) -> (r: bool)
        ensures
            r <==> self@ == other@,
    {
        if self.bytes.len() != other.bytes.len() {
            proof {
                assert(self@.len() != other@.len());
            }
            return false;
        }
        let mut i: usize = 0;
        while i < self.bytes.len()
            invariant
                i <= self@.len(),
                self@.len() == other@.len(),
                forall|j: int| 0 <= j < i ==> self@[j] == other@[j],
            decreases self@.len() - i,
        {
            if self.bytes[i] != other.bytes[i] {
                return false;
            }
            i = i + 1;
        }
        proof {
            assert(self@ =~= other@);
        }
        true
    }
}

impl Clone for MessageId {
    /// A copy holding the same bytes.
    fn clone(&self) -> (r: Self)
        ensures
            r@ == self@,
    {
        MessageId { bytes: copy_bytes(&self.bytes) }
    }
}

/// A message as this client models it: the network it belongs to, its two
/// parent identifiers, and an optional payload. Construction and binary
/// encoding for the wire belong to the node interface, not to this core.
pub struct Message {
    pub network_id: u64,
    pub parent1: MessageId,
    pub parent2: MessageId,
    pub payload: Option<Vec<u8>>,
}

impl Message {
    /// True when both parent identifiers are complete.
    pub open spec fn wf(&self) -> bool {
        self.parent1.wf() && self.parent2.wf()
    }
}

/// The server-reported retry flags of one message, queried fresh before every
/// retry decision; an absent flag counts as false.
pub struct MessageMetadata {
    pub should_promote: Option<bool>,
    pub should_reattach: Option<bool>,
}

/// The fresh context a promotion or reattachment is built from: two tips and
/// the network id, all fetched immediately before construction.
pub struct TipContext {
    pub tip1: MessageId,
    pub tip2: MessageId,
    pub network_id: u64,
}

impl TipContext {
    /// True when both tips are complete identifiers.
    pub open spec fn wf(&self) -> bool {
        self.tip1.wf() && self.tip2.wf()
    }
}

/// True when the identifier bytes `a` stand somewhere in `s`.
pub open spec fn seq_has_id(s: Seq<MessageId>, a: Seq<u8>) -> bool {
    exists|m: int| 0 <= m < s.len() && s[m]@ == a
}

/// True when `v` holds an identifier with the same bytes as `id`.
pub fn contains_id(v: &Vec<MessageId>, id: &MessageId) -> (b: bool)
    ensures
        b <==> seq_has_id(v@, id@),
{
    let mut i: usize = 0;
    while i < v.len()
        invariant
            i <= v@.len(),
            forall|j: int| 0 <= j < i ==> #[trigger] v@[j]@ != id@,
        decreases v@.len() - i,
    {
        if v[i].eq_id(id) {
            return true;
        }
        i = i + 1;
    }
    false
}

/// The identifiers of `ids` with duplicates removed: every listed identifier
/// appears exactly once in the result, and nothing else does. Queries keyed
/// by the result are issued once per distinct identifier.
pub fn dedup_ids(ids: &Vec<MessageId>) -> (r: Vec<MessageId>)
    ensures
        forall|i: int| 0 <= i < ids@.len() ==> seq_has_id(r@, #[trigger] ids@[i]@),
        forall|m: int| 0 <= m < r@.len() ==> seq_has_id(ids@, #[trigger] r@[m]@),
        forall|m: int, n: int| 0 <= m < n < r@.len() ==> r@[m]@ != r@[n]@,
{
    let mut out: Vec<MessageId> = Vec::new();
    let mut k: usize = 0;
    while k < ids.len()
        invariant
            k <= ids@.len(),
            forall|i: int| 0 <= i < k ==> seq_has_id(out@, #[trigger] ids@[i]@),
            forall|m: int| 0 <= m < out@.len() ==> seq_has_id(ids@, #[trigger] out@[m]@),
            forall|m: int, n: int| 0 <= m < n < out@.len() ==> out@[m]@ != out@[n]@,
        decreases ids@.len() - k,
    {
        let ghost old_out = out@;
        if !contains_id(&out, &ids[k]) {
            out.push(ids[k].clone());
            proof {
                assert(out@[old_out.len() as int]@ == ids@[k as int]@);
                assert forall|m: int| 0 <= m < old_out.len() implies #[trigger] out@[m]@
                    != out@[old_out.len() as int]@ by {
                    if old_out[m]@ == ids@[k as int]@ {
                        assert(seq_has_id(old_out, ids@[k as int]@));
                    }
                }
            }
        }
        proof {
            assert forall|i: int| 0 <= i < k + 1 implies seq_has_id(
                out@,
                #[trigger] ids@[i]@,
            ) by {
                if i < k {
                    let m = choose|m: int| 0 <= m < old_out.len() && old_out[m]@ == ids@[i]@;
                    assert(out@[m]@ == ids@[i]@);
                } else {
                    if seq_has_id(old_out, ids@[k as int]@) {
                        let m = choose|m: int|
                            0 <= m < old_out.len() && old_out[m]@ == ids@[k as int]@;
                        assert(out@[m]@ == ids@[i]@);
                    } else {
                        assert(out@[old_out.len() as int]@ == ids@[i]@);
                    }
                }
            }
            assert forall|m: int| 0 <= m < out@.len() implies seq_has_id(
                ids@,
                #[trigger] out@[m]@,
            ) by {
                if m < old_out.len() {
                    let i = choose|i: int| 0 <= i < ids@.len() && ids@[i]@ == old_out[m]@;
                    assert(ids@[i]@ == out@[m]@);
                } else {
                    assert(ids@[k as int]@ == out@[m]@);
                }
            }
        }
        k = k + 1;
    }
    out
}

/// Parses the two hexadecimal tip identifiers reported by a node; fails with
/// `InvalidParameter` exactly when either is not a 64-digit hexadecimal
/// string.
pub fn parse_tips(tip1: &[u8], tip2: &[u8]) -> (r: Result<(MessageId, MessageId), Error>)
    ensures
        r is Ok <==> (hex_ok(tip1@) && tip1@.len() == 64 && hex_ok(tip2@) && tip2@.len() == 64),
        r matches Ok(pair) ==> pair.0@ == hex_decoded(tip1@) && pair.1@ == hex_decoded(tip2@)
            && pair.0.wf() && pair.1.wf(),
        r is Err ==> r matches Err(Error::InvalidParameter(_)),
{
    let first = MessageId::from_hex(tip1)?;
    let second = MessageId::from_hex(tip2)?;
    Ok((first, second))
}

} // verus!
