//! The relay's record of one client connection.

use std::collections::HashMap;
use vstd::prelude::*;

verus! {

/// How many subscriptions one connection may hold.
pub const MAX_SUBSCRIPTIONS: usize = 32;

/// The longest subscription identifier a connection accepts, in bytes.
pub const MAX_SUBSCRIPTION_ID_LEN: usize = 256;

/// An internet address, as its bytes in network order.
#[derive(Debug, Clone, Copy, PartialEq, Eq)]
pub enum IpAddress {
    /// An IPv4 address.
    V4([u8; 4]),
    /// An IPv6 address.
    V6([u8; 16]),
}

/// The address a client connected from.
#[derive(Debug, Clone, Copy, PartialEq, Eq)]
pub struct ClientAddr {
    /// The client's internet address.
    pub ip: IpAddress,
    /// The client's port.
    pub port: u16,
}

/// The state of one websocket connection on the relay's side.
///
/// `Sub` is a subscription, `Tx` the sending end of the connection's notice
/// channel and `G` the state that all connections share; none of them is
/// looked into here.
pub struct LocalState<Sub, Tx, G> {
    client_ip_addr: ClientAddr,
    subscriptions: HashMap<String, Sub>,
    max_subs: usize,
    auth_challenge: [u8; 32],
    outgoing_sender: Tx,
    global_state: G,
    is_authenticated: bool,
}

/// `rand::random` for 32 bytes: a challenge drawn from the thread's random
/// generator.  Nothing is claimed of the bytes; two calls may differ.
#[verifier::external_body]
fn random_challenge() -> [u8; 32] {
    rand::random()
}

impl<Sub, Tx, G> LocalState<Sub, Tx, G> {
    /// The address the client connected from.
    pub closed spec fn addr(&self) -> ClientAddr {
        self.client_ip_addr
    }

    /// The connection's subscriptions, by identifier.
    pub closed spec fn subscription_table(&self) -> Map<String, Sub> {
        self.subscriptions@
    }

    /// The most subscriptions the connection may hold.
    pub closed spec fn subscription_limit(&self) -> usize {
        self.max_subs
    }

    /// The challenge that the client has to sign to authenticate.
    pub closed spec fn challenge(&self) -> [u8; 32] {
        self.auth_challenge
    }

    /// The sending end of the connection's notice channel.
    pub closed spec fn notices(&self) -> Tx {
        self.outgoing_sender
    }

    /// The state shared by all connections.
    pub closed spec fn shared(&self) -> G {
        self.global_state
    }

    /// Whether the client has authenticated.
    pub closed spec fn authenticated(&self) -> bool {
        self.is_authenticated
    }

    /// The state of a connection that starts now: no subscription, room for
    /// 32, a fresh random challenge, not authenticated.
    pub fn new(client_ip_addr: ClientAddr, outgoing_sender: Tx, global_state: G) -> (state: Self)
        ensures
            state.addr() == client_ip_addr,
            state.subscription_table() == Map::<String, Sub>::empty(),
            state.subscription_limit() == MAX_SUBSCRIPTIONS,
            state.notices() == outgoing_sender,
            state.shared() == global_state,
            !state.authenticated(),
    {
        Self::with_challenge(client_ip_addr, outgoing_sender, global_state, random_challenge())
    }

    /// The state of a connection that starts now with the given challenge.
    pub fn with_challenge(
        client_ip_addr: ClientAddr,
        outgoing_sender: Tx,
        global_state: G,
        auth_challenge: [u8; 32],
    ) -> (state: Self)
        ensures
            state.addr() == client_ip_addr,
            state.subscription_table() == Map::<String, Sub>::empty(),
            state.subscription_limit() == MAX_SUBSCRIPTIONS,
            state.challenge() == auth_challenge,
            state.notices() == outgoing_sender,
            state.shared() == global_state,
            !state.authenticated(),
    {
        LocalState {
            client_ip_addr,
            subscriptions: HashMap::new(),
            max_subs: MAX_SUBSCRIPTIONS,
            auth_challenge,
            outgoing_sender,
            global_state,
            is_authenticated: false,
        }
    }

    /// The challenge that the client has to sign to authenticate.
    pub fn auth_challenge(&self) -> (challenge: [u8; 32])
        ensures
            challenge == self.challenge(),
    {
        self.auth_challenge
    }

    /// The address the client connected from.
    pub fn client_ip_addr(&self) -> (addr: ClientAddr)
        ensures
            addr == self.addr(),
    {
        self.client_ip_addr
    }

    /// The connection's subscriptions, by identifier.
    pub fn subscriptions(&self) -> (table: &HashMap<String, Sub>)
        ensures
            table@ == self.subscription_table(),
    {
        &self.subscriptions
    }

    /// The most subscriptions the connection may hold.
    pub fn max_subs(&self) -> (limit: usize)
        ensures
            limit == self.subscription_limit(),
    {
        self.max_subs
    }

    /// Whether the client has authenticated.
    pub fn is_authenticated(&self) -> (authenticated: bool)
        ensures
            authenticated == self.authenticated(),
    {
        self.is_authenticated
    }
}

} // verus!
