//! The error taxonomy of the client: parameter and precondition errors are
//! raised before any network activity, the rest surface collaborator failures.

use vstd::prelude::*;

verus! {

/// Everything that can go wrong in a client operation.
#[derive(Debug)]
pub enum Error {
    /// A required input was omitted (for example, no derivation path).
    MissingParameter(String),
    /// An input was malformed (for example, an unrecognized address type).
    InvalidParameter(String),
    /// No healthy node is currently available.
    NodePoolEmpty,
    /// The local proof-of-work search could not complete.
    ProofOfWorkFailed,
    /// Message construction violated an invariant of the message builder.
    /// The constructions of this crate are total under their checked
    /// preconditions and never produce it; the variant stands for the wire
    /// builder's failure path at the node interface.
    TransactionError,
    /// `retry` was called although the message needs neither promotion nor
    /// reattachment; the payload is the hex form of the message identifier.
    NoNeedPromoteOrReattach(String),
    /// A transport-level failure from a collaborator call.
    NetworkError,
    /// The message to reattach carries no payload.
    MissingPayload,
}

} // verus!
