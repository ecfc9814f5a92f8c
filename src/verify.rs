use vstd::prelude::*;

use crate::error::NetworkError;
use crate::keys::{PubKeyComp, PubKeyView};

verus! {

/// A trust policy, which the application supplies: whether a public key
/// may connect.
pub trait PeerList {
    fn verify_peer(&self, peer: &PubKeyComp) -> bool;
}

/// A connection that the handshake accepted and that waits for the
/// application to check the peer's public key.
pub trait ConnectionRequest: Sized {
    /// The data stream that an accepted request yields.
    type NetStream;

    spec fn spec_stream(&self) -> Self::NetStream;

    spec fn spec_pubkey(&self) -> PubKeyView;

    fn new(stream: Self::NetStream, pubkey: PubKeyComp) -> (r: Self)
        ensures
            r.spec_stream() == stream,
            r.spec_pubkey() == pubkey@,
    ;

    /// Asks the trust policy about the peer's key: the stream when it is
    /// trusted, a denied connection otherwise.
    fn verify<L: PeerList>(self, list: &L) -> (r: Result<Self::NetStream, NetworkError>)
        ensures
            r matches Ok(s) ==> s == self.spec_stream(),
            r is Err ==> (r matches Err(NetworkError::ConnectionDenied(_))),
    ;

    /// Hands out the stream without asking any trust policy. This bypasses
    /// authentication: it is meant only for a first pairing of two peers.
    fn unverify(self) -> (r: Self::NetStream)
        ensures
            r == self.spec_stream(),
    ;
}

/// A pending connection: its stream and the public key the peer proved it
/// holds.
#[derive(Debug)]
pub struct AsyncRequest<T> {
    pubkey: PubKeyComp,
    stream: T,
}

impl<T> AsyncRequest<T> {
    /// The peer's public key.
    pub fn pubkey(&self) -> (r: &PubKeyComp)
        ensures
            r@ == self.spec_pubkey(),
    {
        &self.pubkey
    }
}

impl<T> AsyncRequest<T> {
    /// Applies the trust policy's answer for this peer: the stream when
    /// the key is trusted, a denied connection otherwise.
    pub fn decide(self, trusted: bool) -> (r: Result<T, NetworkError>)
        ensures
            trusted ==> r == Ok::<T, NetworkError>(self.spec_stream()),
            !trusted ==> (r matches Err(NetworkError::ConnectionDenied(_))),
    {
        if trusted {
            Ok(self.stream)
        } else {
            Err(NetworkError::ConnectionDenied(String::from_str("verification of peer failed")))
        }
    }
}

impl<T> ConnectionRequest for AsyncRequest<T> {
    type NetStream = T;

    closed spec fn spec_stream(&self) -> T {
        self.stream
    }

    closed spec fn spec_pubkey(&self) -> PubKeyView {
        self.pubkey@
    }

    fn new(stream: T, pubkey: PubKeyComp) -> (r: Self) {
        AsyncRequest { stream, pubkey }
    }

    fn verify<L: PeerList>(self, list: &L) -> (r: Result<T, NetworkError>) {
        let trusted = list.verify_peer(&self.pubkey);
        self.decide(trusted)
    }

    fn unverify(self) -> (r: T) {
        self.stream
    }
}

} // verus!
