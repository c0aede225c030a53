//! The protocol values that pass between the client facade, the connection
//! actors and the caller.

use vstd::prelude::*;

verus! {

/// A 32-byte value: an event identifier, a digest or a Schnorr public key.
pub type Bytes32 = [u8; 32];

/// A 20-byte account address.
pub type Address = [u8; 20];

/// The relay's verdict on one published event.
#[derive(Debug, Clone, PartialEq, Eq)]
pub struct RelayOk {
    /// The identifier of the event the verdict is about.
    pub event_id: Bytes32,
    /// Whether the relay took the event.
    pub accepted: bool,
    /// The relay's reason, in its own words.
    pub message: String,
}

/// A frame from the relay, once read.  Only the acknowledgement is
/// interpreted here; every other kind is carried as the payload `M`.
#[derive(Debug, Clone, PartialEq, Eq)]
pub enum RelayMessage<M> {
    /// An acknowledgement of a published event.
    Ack(RelayOk),
    /// Any other message: an event delivery, an end-of-stored-events
    /// marker, a notice.
    Other(M),
}

/// A subscription filter, held as the body that goes on the wire.
#[derive(Debug, Clone, PartialEq, Eq)]
pub struct Request {
    /// The filter, already in its wire form.
    pub body: String,
}

/// An event that has not been signed yet.
#[derive(Debug, Clone, PartialEq, Eq)]
pub struct UnsignedEvent {
    /// The digest of the event's canonical form.
    pub id: Bytes32,
    /// The canonical form itself.
    pub body: String,
}

/// An event together with its author's signature over its identifier.
#[derive(Debug, Clone, PartialEq, Eq)]
pub struct SignedEvent {
    /// The digest of the event's canonical form.
    pub id: Bytes32,
    /// The canonical form itself.
    pub body: String,
    /// The signature over `id`.
    pub signature: Vec<u8>,
}

/// What the writer puts on the socket.
#[derive(Debug, Clone, PartialEq, Eq)]
pub enum Outgoing {
    /// A subscription request.
    Subscription(Request),
    /// A signed event.
    Publication(SignedEvent),
}

/// Whether two 32-byte values are the same.
pub fn same_bytes32(a: &Bytes32, b: &Bytes32) -> (same: bool)
    ensures
        same == (a@ == b@),
{
    let mut i: usize = 0;
    while i < 32
        invariant
            i <= 32,
            forall|k: int| 0 <= k < i ==> a@[k] == b@[k],
        decreases 32 - i,
    {
        if a[i] != b[i] {
            return false;
        }
        i += 1;
    }
    assert(a@ =~= b@);
    true
}

} // verus!
