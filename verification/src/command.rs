//! The vocabulary of the command channel.

use crate::types::{RelayOk, Request, SignedEvent};
use vstd::prelude::*;

verus! {

/// One entry of the single outgoing channel.  `W` is the completion slot on
/// which the publisher of an event waits for the relay's verdict.
#[derive(Debug, PartialEq, Eq)]
pub enum ClientCommand<W> {
    /// Register a subscription.
    Req(Request),
    /// Publish an event and complete the slot once the relay has answered.
    Event(SignedEvent, W),
    /// An acknowledgement that the reader received.
    Ack(RelayOk),
}

} // verus!
