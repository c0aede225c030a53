//! The reader side of a connection: the single owner of the receive half of
//! the socket.
//!
//! The reader keeps no state.  For each item that the socket yields it says
//! what has to happen; whoever owns the socket and the channels does it.

use crate::types::{RelayMessage, RelayOk};
use vstd::prelude::*;

verus! {

/// One item from the receive half of the socket.
#[derive(Debug, Clone, PartialEq, Eq)]
pub enum Inbound<M> {
    /// A text frame, with what reading it as a relay message gave: `None`
    /// where the text is not a relay message.
    Text(Option<RelayMessage<M>>),
    /// A ping.  The transport answers it by itself.
    Ping,
    /// The relay closed the connection.
    Close,
    /// A frame of any other kind.
    Unsupported,
    /// The transport failed.
    Failed,
    /// The stream has ended.
    End,
}

/// What the reader asks for after one item.
#[derive(Debug, Clone, PartialEq, Eq)]
pub enum ReaderAction<M> {
    /// Hand this acknowledgement to the writer, as a command.
    ForwardAck(RelayOk),
    /// Hand this message to the caller's sink.
    Deliver(M),
    /// No sink was registered: drop this message, with a diagnostic.
    Unhandled(M),
    /// The frame could not be read: report it and go on.
    Malformed,
    /// Nothing to do: go on to the next item.
    Skip,
    /// Leave the read loop.
    Stop,
}

/// What the reader does with a text frame, given what reading it gave.
pub open spec fn routed<M>(parsed: Option<RelayMessage<M>>, has_sink: bool) -> ReaderAction<M> {
    match parsed {
        Some(RelayMessage::Ack(ok)) => ReaderAction::ForwardAck(ok),
        Some(RelayMessage::Other(message)) => if has_sink {
            ReaderAction::Deliver(message)
        } else {
            ReaderAction::Unhandled(message)
        },
        None => ReaderAction::Malformed,
    }
}

/// What the reader does with one item from the socket.
pub open spec fn reaction<M>(item: Inbound<M>, has_sink: bool) -> ReaderAction<M> {
    match item {
        Inbound::Text(parsed) => routed(parsed, has_sink),
        Inbound::Ping => ReaderAction::Skip,
        Inbound::Unsupported => ReaderAction::Skip,
        Inbound::Close => ReaderAction::Stop,
        Inbound::Failed => ReaderAction::Stop,
        Inbound::End => ReaderAction::Stop,
    }
}

/// Routes one text frame.
///
/// An acknowledgement goes to the writer, whatever else is registered.  Any
/// other message goes to the sink if the caller registered one and is dropped
/// otherwise.  Text that is no relay message is reported and skipped; it
/// never ends the read loop.
pub fn handle_incoming_message<M>(parsed: Option<RelayMessage<M>>, has_sink: bool) -> (action:
    ReaderAction<M>)
    ensures
        action == routed(parsed, has_sink),
{
    match parsed {
        Some(incoming) => match incoming {
            RelayMessage::Ack(ok) => ReaderAction::ForwardAck(ok),
            RelayMessage::Other(message) => {
                if has_sink {
                    ReaderAction::Deliver(message)
                } else {
                    ReaderAction::Unhandled(message)
                }
            },
        },
        None => ReaderAction::Malformed,
    }
}

/// Takes one item from the socket and says what to do about it.
///
/// Text frames are routed by [`handle_incoming_message`].  Pings and frames
/// of other kinds are passed over.  A close frame, a transport failure and
/// the end of the stream each end the read loop.
pub fn on_item<M>(item: Inbound<M>, has_sink: bool) -> (action: ReaderAction<M>)
    ensures
        action == reaction(item, has_sink),
{
    match item {
        Inbound::Text(parsed) => handle_incoming_message(parsed, has_sink),
        Inbound::Ping => ReaderAction::Skip,
        Inbound::Unsupported => ReaderAction::Skip,
        Inbound::Close => ReaderAction::Stop,
        Inbound::Failed => ReaderAction::Stop,
        Inbound::End => ReaderAction::Stop,
    }
}

} // verus!
