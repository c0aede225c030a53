//! The client facade: the connection's lifecycle and the two operations a
//! caller has, publishing an event and registering a subscription.
//!
//! The facade decides; it does not touch the network.  Each operation says
//! what has to be done (dial this address, submit this command) and a second
//! call takes what came of it.  `H` is the handle on which commands are
//! submitted once a connection stands.

use crate::command::ClientCommand;
use crate::signer::{SenderSigner, SignError, Signer, Sender};
use crate::types::{Bytes32, RelayOk, Request, SignedEvent, UnsignedEvent};
use vstd::prelude::*;
use vstd::string::*;

verus! {

/// How many commands the command channel holds before a submitter waits.
pub const COMMAND_CAPACITY: usize = 32;

/// How many relay messages the caller's sink holds before the reader waits.
pub const SINK_CAPACITY: usize = 10;

/// How long a publisher waits for the relay's verdict, in seconds.
pub const ACK_TIMEOUT_SECS: u64 = 20;

/// Why an operation of the client failed.
#[derive(Debug, Clone, PartialEq, Eq)]
pub enum ClientError {
    /// `connect` on a client that holds a connection already.
    AlreadyConnected,
    /// The relay at this address could not be reached.
    CannotConnect(String),
    /// `publish` or `subscribe` on a client that holds no connection.
    NotConnected,
    /// The signer produced no signature.
    Signing(SignError),
    /// The command channel is closed: the writer has stopped.
    ChannelClosed,
    /// The relay refused the event, for this reason.
    Rejected(String),
    /// No verdict arrived in time.
    AckTimeout,
}

impl ClientError {
    /// The failure in words.
    pub open spec fn text(self) -> Seq<char> {
        match self {
            ClientError::AlreadyConnected => "Already connected"@,
            ClientError::CannotConnect(url) => "Cannot connect to "@ + url@,
            ClientError::NotConnected => "missing channel"@,
            ClientError::Signing(error) => error.reason@,
            ClientError::ChannelClosed => "channel closed"@,
            ClientError::Rejected(reason) => "rejected: "@ + reason@,
            ClientError::AckTimeout => "ACK timeout"@,
        }
    }

    /// The failure in words.  A refusal reads `rejected: ` followed by the
    /// relay's message as it came; a signing failure reads as the signer
    /// put it.
    pub fn message(&self) -> (text: String)
        ensures
            text@ == self.text(),
    {
        match self {
            ClientError::AlreadyConnected => String::from_str("Already connected"),
            ClientError::CannotConnect(url) => String::from_str("Cannot connect to ").concat(
                url.as_str(),
            ),
            ClientError::NotConnected => String::from_str("missing channel"),
            ClientError::Signing(error) => error.reason.clone(),
            ClientError::ChannelClosed => String::from_str("channel closed"),
            ClientError::Rejected(reason) => String::from_str("rejected: ").concat(
                reason.as_str(),
            ),
            ClientError::AckTimeout => String::from_str("ACK timeout"),
        }
    }
}

/// What `connect` asks for: a connection to `url`, a command channel and,
/// where `sink_capacity` is set, a sink of that capacity for the relay's
/// messages.
#[derive(Debug, Clone, PartialEq, Eq)]
pub struct ConnectPlan {
    /// The relay's address.
    pub url: String,
    /// The capacity of the command channel.
    pub command_capacity: usize,
    /// The capacity of the sink for relay messages; `None` for no sink.
    pub sink_capacity: Option<usize>,
}

/// How a publisher's wait on its slot ended.
///
/// A wait ends with a verdict or with the time allowed, never earlier: a
/// publisher whose slot has been given up has no verdict to expect and
/// still waits until its time has run out.
#[derive(Debug, Clone, PartialEq, Eq)]
pub enum AckWait {
    /// The writer completed the slot with the relay's verdict.
    Resolved(RelayOk),
    /// The slot was given up without a verdict, and the time allowed has
    /// run out since.
    Abandoned,
    /// The time allowed for the verdict ran out.
    TimedOut,
}

/// The plan of a connection attempt to `url`.
pub open spec fn plan_for(url: Seq<char>, with_sink: bool, plan: ConnectPlan) -> bool {
    &&& plan.url@ == url
    &&& plan.command_capacity == COMMAND_CAPACITY
    &&& plan.sink_capacity == if with_sink {
        Some(SINK_CAPACITY)
    } else {
        None
    }
}

/// The command that publishes `event`, given what the signer returned for
/// the event's identifier.
pub open spec fn sealed<W>(
    event: UnsignedEvent,
    waiter: W,
    signed: Result<Vec<u8>, SignError>,
) -> Result<ClientCommand<W>, ClientError> {
    match signed {
        Ok(signature) => Ok(
            ClientCommand::Event(
                SignedEvent { id: event.id, body: event.body, signature },
                waiter,
            ),
        ),
        Err(error) => Err(ClientError::Signing(error)),
    }
}

/// The command of a prepared submission, without the handle it goes on.
pub open spec fn command_of<H, W>(prepared: Result<(&H, ClientCommand<W>), ClientError>) -> Result<
    ClientCommand<W>,
    ClientError,
> {
    match prepared {
        Ok((_, command)) => Ok(command),
        Err(error) => Err(error),
    }
}

/// The result of a publish whose wait ended as `wait`.
pub open spec fn verdict(wait: AckWait) -> Result<(), ClientError> {
    match wait {
        AckWait::Resolved(ok) => if ok.accepted {
            Ok(())
        } else {
            Err(ClientError::Rejected(ok.message))
        },
        AckWait::Abandoned => Err(ClientError::AckTimeout),
        AckWait::TimedOut => Err(ClientError::AckTimeout),
    }
}

/// Puts the signature on an event and wraps it as the command to submit; a
/// signing failure becomes the publish's failure.
pub fn seal<W>(event: UnsignedEvent, waiter: W, signed: Result<Vec<u8>, SignError>) -> (r: Result<
    ClientCommand<W>,
    ClientError,
>)
    ensures
        r == sealed(event, waiter, signed),
{
    match signed {
        Ok(signature) => Ok(
            ClientCommand::Event(
                SignedEvent { id: event.id, body: event.body, signature },
                waiter,
            ),
        ),
        Err(error) => Err(ClientError::Signing(error)),
    }
}

/// What a publisher reports once its wait has ended: success for an
/// accepted event, the relay's reason for a refused one, and a timeout
/// where no verdict came in time, whether the slot was still pending or had
/// been given up.
pub fn publish_outcome(wait: AckWait) -> (r: Result<(), ClientError>)
    ensures
        r == verdict(wait),
{
    match wait {
        AckWait::Resolved(ok) => {
            if ok.accepted {
                Ok(())
            } else {
                Err(ClientError::Rejected(ok.message))
            }
        },
        AckWait::Abandoned => Err(ClientError::AckTimeout),
        AckWait::TimedOut => Err(ClientError::AckTimeout),
    }
}

/// What a submitter reports once the command channel has answered: a
/// command that the channel did not take fails the operation.
pub fn submit_outcome(taken: bool) -> (r: Result<(), ClientError>)
    ensures
        r == if taken {
            Ok::<(), ClientError>(())
        } else {
            Err::<(), ClientError>(ClientError::ChannelClosed)
        },
{
    if taken {
        Ok(())
    } else {
        Err(ClientError::ChannelClosed)
    }
}

/// A client of one relay.  It starts without a connection and holds at most
/// one.
pub struct Client<S, E, H> {
    signer: SenderSigner<S, E>,
    tx: Option<H>,
}

impl<S: Signer, E: Signer, H> Client<S, E, H> {
    /// The handle of the connection that the client holds.
    pub closed spec fn channel(&self) -> Option<H> {
        self.tx
    }

    /// Whether the client holds a connection.
    pub open spec fn connected(&self) -> bool {
        self.channel() is Some
    }

    /// The signer that the client was made with.
    pub closed spec fn signer(&self) -> SenderSigner<S, E> {
        self.signer
    }

    /// A client that signs with `signer` and holds no connection.
    pub fn new(signer: SenderSigner<S, E>) -> (client: Self)
        ensures
            client.channel() == None::<H>,
            client.signer() == signer,
    {
        Client { signer, tx: None }
    }

    /// Whether the client holds a connection.
    pub fn is_connected(&self) -> (connected: bool)
        ensures
            connected == self.connected(),
    {
        self.tx.is_some()
    }

    /// The handle on which commands are submitted, if a connection stands.
    pub fn handle(&self) -> (handle: Option<&H>)
        ensures
            handle is Some == self.connected(),
            handle matches Some(h) ==> self.channel() == Some(*h),
    {
        self.tx.as_ref()
    }

    /// Asks for a connection to `url` without a sink: every relay message
    /// other than an acknowledgement will be dropped.  Refused on a client
    /// that is connected already.
    pub fn connect(&self, url: &str) -> (r: Result<ConnectPlan, ClientError>)
        ensures
            self.connected() ==> r == Err::<ConnectPlan, ClientError>(
                ClientError::AlreadyConnected,
            ),
            !self.connected() ==> r is Ok && plan_for(url@, false, r->Ok_0),
    {
        self._connect(url, false)
    }

    /// Asks for a connection to `url` with a sink on which the caller
    /// receives every relay message other than an acknowledgement.  Refused
    /// on a client that is connected already.
    pub fn connect_with_channel(&self, url: &str) -> (r: Result<ConnectPlan, ClientError>)
        ensures
            self.connected() ==> r == Err::<ConnectPlan, ClientError>(
                ClientError::AlreadyConnected,
            ),
            !self.connected() ==> r is Ok && plan_for(url@, true, r->Ok_0),
    {
        self._connect(url, true)
    }

    /// The first half of connecting: refuses a client that is connected
    /// already, and otherwise says what to set up.  Nothing is dialled and
    /// no actor is started on a refusal.
    pub fn _connect(&self, url: &str, with_sink: bool) -> (r: Result<ConnectPlan, ClientError>)
        ensures
            self.connected() ==> r == Err::<ConnectPlan, ClientError>(
                ClientError::AlreadyConnected,
            ),
            !self.connected() ==> r is Ok && plan_for(url@, with_sink, r->Ok_0),
    {
        if self.tx.is_some() {
            return Err(ClientError::AlreadyConnected);
        }
        let sink_capacity = if with_sink {
            Some(SINK_CAPACITY)
        } else {
            None
        };
        Ok(ConnectPlan { url: url.to_owned(), command_capacity: COMMAND_CAPACITY, sink_capacity })
    }

    /// The second half of connecting: takes what dialling `plan` gave.
    ///
    /// `None` means the relay could not be reached; the client stays
    /// without a connection.  `Some` carries the handle of the new command
    /// channel, which the client keeps from now on.  A client that is
    /// connected already keeps the connection it has.
    pub fn finish_connect(&mut self, plan: ConnectPlan, dialled: Option<H>) -> (r: Result<
        (),
        ClientError,
    >)
        ensures
            final(self).signer() == old(self).signer(),
            old(self).connected() ==> r == Err::<(), ClientError>(ClientError::AlreadyConnected)
                && final(self).channel() == old(self).channel(),
            !old(self).connected() ==> match dialled {
                Some(handle) => r == Ok::<(), ClientError>(()) && final(self).channel() == Some(
                    handle,
                ),
                None => r == Err::<(), ClientError>(ClientError::CannotConnect(plan.url))
                    && final(self).channel() == None::<H>,
            },
    {
        if self.tx.is_some() {
            return Err(ClientError::AlreadyConnected);
        }
        match dialled {
            Some(handle) => {
                self.tx = Some(handle);
                Ok(())
            },
            None => Err(ClientError::CannotConnect(plan.url)),
        }
    }

    /// Prepares the publication of `event`: has the client's signer sign the
    /// event's identifier and wraps the signed event, with the slot on which
    /// the caller will wait, as the command to submit on the returned handle.
    ///
    /// Fails without signing on a client that holds no connection, and with
    /// the signer's error where signing fails.  After submitting the
    /// command the caller waits on the slot for [`ACK_TIMEOUT_SECS`] and
    /// reads the result off [`publish_outcome`].
    pub fn publish<W>(&self, event: UnsignedEvent, waiter: W) -> (r: Result<
        (&H, ClientCommand<W>),
        ClientError,
    >)
        ensures
            !self.connected() ==> (r matches Err(error) && error == ClientError::NotConnected),
            self.connected() ==> exists|signed: Result<Vec<u8>, SignError>|
                self.signer().signs(event.id, signed) && command_of(r) == sealed(
                    event,
                    waiter,
                    signed,
                ),
            r matches Ok(prepared) ==> self.channel() == Some(*prepared.0),
    {
        match &self.tx {
            Some(handle) => {
                let signed = self.signer.try_sign(&event.id);
                match seal(event, waiter, signed) {
                    Ok(command) => {
                        let r = Ok((handle, command));
                        assert(self.signer().signs(event.id, signed) && command_of(r) == sealed(
                            event,
                            waiter,
                            signed,
                        ));
                        r
                    },
                    Err(error) => {
                        let r = Err(error);
                        assert(self.signer().signs(event.id, signed) && command_of::<H, W>(r)
                            == sealed(event, waiter, signed));
                        r
                    },
                }
            },
            None => Err(ClientError::NotConnected),
        }
    }

    /// The identity under which this client publishes.
    pub fn sender(&self) -> (id: Sender)
        ensures
            id == self.signer().identity(),
    {
        self.signer.sender()
    }

    /// Signs `msg` with the client's signer, connected or not.  The outcome
    /// is the signer's own.
    pub fn try_sign(&self, msg: &Bytes32) -> (outcome: Result<Vec<u8>, SignError>)
        ensures
            self.signer().signs(*msg, outcome),
    {
        self.signer.try_sign(msg)
    }

    /// Prepares a subscription: wraps `req` as the command to submit on the
    /// returned handle.  The subscription is made once the command channel
    /// has taken the command; no answer from the relay is waited for, and
    /// nothing about any publish is consulted.  Fails on a client that holds
    /// no connection.
    pub fn subscribe<W>(&self, req: Request) -> (r: Result<(&H, ClientCommand<W>), ClientError>)
        ensures
            command_of(r) == if self.connected() {
                Ok::<ClientCommand<W>, ClientError>(ClientCommand::Req(req))
            } else {
                Err::<ClientCommand<W>, ClientError>(ClientError::NotConnected)
            },
            r matches Ok(prepared) ==> self.channel() == Some(*prepared.0),
    {
        match &self.tx {
            Some(handle) => Ok((handle, ClientCommand::Req(req))),
            None => Err(ClientError::NotConnected),
        }
    }
}

} // verus!
