//! The message lifecycle controller: the retry decision over server-reported
//! metadata, and the construction of promotion and reattachment messages from
//! a freshly fetched tip context.

use vstd::prelude::*;

use crate::codec::{copy_bytes, encode_hex, hex_encoded};
use crate::error::Error;
use crate::message::{Message, MessageId, MessageMetadata, TipContext};

verus! {

/// The characters of an ASCII byte string.
pub open spec fn ascii_chars(s: Seq<u8>) -> Seq<char> {
    s.map_values(|b: u8| b as char)
}

/// Relies on `String::from_utf8`: ASCII bytes decode to exactly those
/// characters. The fallback never runs under this function's precondition.
#[verifier::external_body]
fn string_from_ascii(bytes: Vec<u8>) -> (r: String)
    requires
        forall|i: int| 0 <= i < bytes@.len() ==> bytes@[i] < 128,
    ensures
        r@ == ascii_chars(bytes@),
{
    String::from_utf8(bytes).unwrap_or_default()
}

/// What a retry of one message must do, decided once per call.
#[derive(PartialEq, Eq, Structural, Debug, Clone, Copy)]
pub enum RetryDecision {
    /// Attach an empty message on top of it.
    Promote,
    /// Resubmit its payload under fresh parents.
    Reattach,
}

/// Decides a retry of the message `id` from its freshly queried metadata:
/// promote when the node says so, otherwise reattach when the node says so,
/// otherwise fail with `NoNeedPromoteOrReattach` carrying the hexadecimal
/// form of `id` — before any tips are fetched or any message is posted.
pub fn retry_decision(id: &MessageId, metadata: &MessageMetadata) -> (r: Result<
    RetryDecision,
    Error,
>)
    ensures
        metadata.should_promote == Some(true) ==> r == Ok::<RetryDecision, Error>(RetryDecision::Promote),
        metadata.should_promote != Some(true) && metadata.should_reattach == Some(true) ==> r
            == Ok::<RetryDecision, Error>(RetryDecision::Reattach),
        metadata.should_promote != Some(true) && metadata.should_reattach != Some(true) ==> (
        r matches Err(Error::NoNeedPromoteOrReattach(s)) && s@ == ascii_chars(
            hex_encoded(id@),
        )),
        r is Err <==> metadata.should_promote != Some(true) && metadata.should_reattach != Some(
            true,
        ),
{
    let promote = match metadata.should_promote {
        Some(v) => v,
        None => false,
    };
    let reattach = match metadata.should_reattach {
        Some(v) => v,
        None => false,
    };
    if promote {
        Ok(RetryDecision::Promote)
    } else if reattach {
        Ok(RetryDecision::Reattach)
    } else {
        let hex = encode_hex(id.bytes.as_slice());
        proof {
            assert forall|i: int| 0 <= i < hex@.len() implies hex@[i] < 128 by {
                lemma_hex_encoded_ascii(id@);
            }
        }
        Err(Error::NoNeedPromoteOrReattach(string_from_ascii(hex)))
    }
}

/// Every byte of a hexadecimal encoding is an ASCII digit or letter.
proof fn lemma_hex_encoded_ascii(data: Seq<u8>)
    ensures
        forall|i: int| 0 <= i < hex_encoded(data).len() ==> #[trigger] hex_encoded(data)[i] < 128,
    decreases data.len(),
{
    if data.len() > 0 {
        lemma_hex_encoded_ascii(data.skip(1));
        assert forall|i: int| 0 <= i < hex_encoded(data).len() implies #[trigger] hex_encoded(
            data,
        )[i] < 128 by {
            if i >= 2 {
                assert(hex_encoded(data)[i] == hex_encoded(data.skip(1))[i - 2]);
            }
        }
    }
}

/// Builds the promotion of `message_id`: an empty-payload message whose
/// parents are the first fresh tip and the promoted message itself, under the
/// freshly derived network id. Nothing of an earlier call is reused: every
/// field of the result comes from `ctx` or from `message_id`.
pub fn build_promote(ctx: &TipContext, message_id: &MessageId) -> (m: Message)
    requires
        ctx.wf(),
        message_id.wf(),
    ensures
        m.network_id == ctx.network_id,
        m.parent1@ == ctx.tip1@,
        m.parent2@ == message_id@,
        m.payload is None,
        m.wf(),
{
    Message {
        network_id: ctx.network_id,
        parent1: ctx.tip1.clone(),
        parent2: message_id.clone(),
        payload: None,
    }
}

/// Builds the reattachment of `original`: the same payload under both fresh
/// tips and the freshly derived network id. Fails with `MissingPayload`
/// exactly when the original message carries no payload; nothing of an
/// earlier call is reused.
pub fn build_reattach(ctx: &TipContext, original: &Message) -> (r: Result<Message, Error>)
    requires
        ctx.wf(),
    ensures
        r is Ok <==> original.payload is Some,
        r matches Ok(m) ==> m.network_id == ctx.network_id && m.parent1@ == ctx.tip1@
            && m.parent2@ == ctx.tip2@ && (m.payload matches Some(p) && p@
            == original.payload.unwrap()@) && m.wf(),
        r is Err ==> r matches Err(Error::MissingPayload),
{
    match &original.payload {
        Some(p) => Ok(
            Message {
                network_id: ctx.network_id,
                parent1: ctx.tip1.clone(),
                parent2: ctx.tip2.clone(),
                payload: Some(copy_bytes(p)),
            },
        ),
        None => Err(Error::MissingPayload),
    }
}

} // verus!
