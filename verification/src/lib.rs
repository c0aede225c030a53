//! A client engine for the Nostr protocol, with its decisions verified.
//!
//! The crate holds what a client decides, not what it sends: the facade that
//! guards the connection's lifecycle ([`client`]), the reader that routes
//! inbound frames ([`reader`]), the writer that matches acknowledgements to
//! the publishers waiting for them ([`writer`]), and the guarantees that the
//! three give together ([`delivery`]).  Beside them stand the signing
//! identities ([`signer`]), the relay's record of one connection
//! ([`local`]) and an RSA signature check ([`rsa`]).
//!
//! Nothing here touches a socket, a channel or a clock.  Each operation
//! returns what has to be done next and a later call takes what came of it.

pub mod bigint;
pub mod client;
pub mod command;
pub mod delivery;
pub mod local;
pub mod reader;
pub mod rsa;
pub mod signer;
pub mod types;
pub mod writer;
