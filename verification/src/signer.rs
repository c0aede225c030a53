//! Signing identities.
//!
//! A client signs with one of two kinds of key: a Schnorr key pair, known to
//! the network by its public key, or an externally owned account, known by
//! its address.  The key material stays behind the [`Signer`] trait; the
//! identity that goes with it is plain data.

use crate::types::{Address, Bytes32};
use vstd::prelude::*;

verus! {

/// Why a signer produced no signature.
#[derive(Debug, Clone, PartialEq, Eq)]
pub struct SignError {
    /// The signer's own account of the failure.
    pub reason: String,
}

/// A key that signs 32-byte digests.
///
/// Nothing is assumed of an implementation: a signature may depend on
/// randomness, and signing may fail.  What an implementation does promise,
/// it says in [`Signer::signs`].
pub trait Signer {
    /// Whether `outcome` is something that signing `msg` with this key may
    /// give.  A key that promises nothing leaves this as it is: every
    /// outcome may come.
    open spec fn signs(&self, msg: Bytes32, outcome: Result<Vec<u8>, SignError>) -> bool {
        true
    }

    /// Signs `msg`, or says why it could not.
    fn try_sign(&self, msg: &Bytes32) -> (outcome: Result<Vec<u8>, SignError>)
        ensures
            self.signs(*msg, outcome),
    ;
}

/// A Schnorr key pair together with its public key.
pub struct SchnorrSigner<K> {
    /// The signing key.
    pub key: K,
    /// The public key that verifies what `key` signs.
    pub public_key: Bytes32,
}

/// An externally owned account together with its address.
pub struct EoaSigner<K> {
    /// The account's signing key.
    pub key: K,
    /// The address derived from `key`.
    pub address: Address,
}

/// The signer of a client: one of the two kinds, chosen when the client is
/// made and kept for its lifetime.
pub enum SenderSigner<S, E> {
    /// Sign as a Schnorr key pair.
    Schnorr(SchnorrSigner<S>),
    /// Sign as an externally owned account.
    Eoa(EoaSigner<E>),
}

/// The identity under which events are published.
#[derive(Debug, Clone, Copy, PartialEq, Eq)]
pub enum Sender {
    /// A Schnorr public key.
    SchnorrPubKey(Bytes32),
    /// An account address.
    EoaAddress(Address),
}

impl<S: Signer, E: Signer> SenderSigner<S, E> {
    /// The identity that goes with this signer.
    pub open spec fn identity(&self) -> Sender {
        match self {
            SenderSigner::Schnorr(signer) => Sender::SchnorrPubKey(signer.public_key),
            SenderSigner::Eoa(signer) => Sender::EoaAddress(signer.address),
        }
    }

    /// The identity that goes with this signer: the public key of a Schnorr
    /// key pair, the address of an account.
    pub fn sender(&self) -> (id: Sender)
        ensures
            id == self.identity(),
    {
        match self {
            SenderSigner::Schnorr(signer) => Sender::SchnorrPubKey(signer.public_key),
            SenderSigner::Eoa(signer) => Sender::EoaAddress(signer.address),
        }
    }

    /// Whether `outcome` is something that signing `msg` may give: an outcome
    /// of the key that this signer holds, Schnorr or account.
    pub open spec fn signs(&self, msg: Bytes32, outcome: Result<Vec<u8>, SignError>) -> bool {
        match self {
            SenderSigner::Schnorr(signer) => signer.key.signs(msg, outcome),
            SenderSigner::Eoa(signer) => signer.key.signs(msg, outcome),
        }
    }

    /// Signs `msg` with whichever key this signer holds.  The outcome is the
    /// key's own; nothing is retried.
    pub fn try_sign(&self, msg: &Bytes32) -> (outcome: Result<Vec<u8>, SignError>)
        ensures
            self.signs(*msg, outcome),
    {
        match self {
            SenderSigner::Schnorr(signer) => signer.key.try_sign(msg),
            SenderSigner::Eoa(signer) => signer.key.try_sign(msg),
        }
    }
}

} // verus!
