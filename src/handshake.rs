use vstd::prelude::*;

use crate::error::NetworkError;
use crate::netcore::L4Addr;
use crate::protocol::{
    decode, encode_padded, lemma_decode_encode, valid_header, HeaderView, StreamHeader, CHECKSUM_LEN,
    HEADER_LEN, KEY_LEN,
};
use crate::utils::{is_alphanumeric_byte, random_bytes};

verus! {

/// Length of the responder's challenge.
pub const CHALLENGE_LEN: usize = 32;

/// The acknowledgement that ends a handshake: the ASCII text `okay`.
pub open spec fn ack_bytes() -> Seq<u8> {
    seq![111u8, 107u8, 97u8, 121u8]
}

/// The plaintext of the final acknowledgement.
pub fn ack_message() -> (r: Vec<u8>)
    ensures
        r@ == ack_bytes(),
{
    let r: Vec<u8> = vec![111u8, 107u8, 97u8, 121u8];
    proof {
        assert(r@ =~= ack_bytes());
    }
    r
}

/// Where a handshake stands.
#[derive(Clone, Copy, Debug, PartialEq, Eq, Structural)]
pub enum Phase {
    /// The initiator waits for the responder's challenge.
    AwaitResponse,
    /// The responder waits for the initiator's answer to its challenge.
    AwaitReply,
    /// The initiator waits for the final acknowledgement.
    AwaitAck,
    /// Both keys are in place: the connection may be registered.
    Established,
    /// A check failed; the attempt is over.
    Denied,
}

/// The initiator accepts the responder's message when the header it echoes
/// carries the checksum of the header that was sent.
pub open spec fn echo_accepted(sent: HeaderView, echoed: HeaderView) -> bool {
    echoed.checksum == sent.checksum
}

/// The responder accepts an answer that is exactly its challenge.
pub open spec fn reply_accepted(challenge: Seq<u8>, reply: Seq<u8>) -> bool {
    reply == challenge
}

/// The initiator accepts an acknowledgement that decrypted to `okay`; `None`
/// stands for one that did not decrypt.
pub open spec fn ack_accepted(plaintext: Option<Seq<u8>>) -> bool {
    plaintext == Some(ack_bytes())
}

/// The UDP address that a responder registers for a peer: the source IP
/// that the TCP connection showed, with the port that the peer claimed.
/// The IP is vouched for by the transport; the port only by the peer, so a
/// peer on the same host could claim another's port.
pub open spec fn spec_routing_address(observed: L4Addr, claimed: L4Addr) -> L4Addr {
    L4Addr { ip: observed.ip, port: claimed.port }
}

pub fn routing_address(observed: L4Addr, claimed: L4Addr) -> (r: L4Addr)
    ensures
        r == spec_routing_address(observed, claimed),
{
    L4Addr { ip: observed.ip, port: claimed.port }
}

fn denied(reason: &str) -> (r: NetworkError)
    ensures
        r matches NetworkError::ConnectionDenied(_),
{
    NetworkError::ConnectionDenied(String::from_str(reason))
}

/// The side that opens a connection: it sends a fresh header, answers the
/// responder's challenge, and waits for the acknowledgement.
pub struct Initiator {
    header: StreamHeader,
    peer: L4Addr,
    phase: Phase,
}

impl Initiator {
    pub closed spec fn spec_header(&self) -> HeaderView {
        self.header@
    }

    pub closed spec fn spec_peer(&self) -> L4Addr {
        self.peer
    }

    pub closed spec fn spec_phase(&self) -> Phase {
        self.phase
    }

    /// A handshake towards `peer` that announces `header`.
    pub fn with_header(header: StreamHeader, peer: L4Addr) -> (r: Self)
        ensures
            r.spec_header() == header@,
            r.spec_peer() == peer,
            r.spec_phase() == Phase::AwaitResponse,
    {
        Initiator { header, peer, phase: Phase::AwaitResponse }
    }

    /// A handshake towards `peer` with a fresh header: a random 16-byte key
    /// and length 0.
    pub fn start(peer: L4Addr) -> (r: Self)
        ensures
            r.spec_header().key.len() == KEY_LEN,
            forall|i: int|
                0 <= i < KEY_LEN ==> is_alphanumeric_byte(#[trigger] r.spec_header().key[i]),
            r.spec_header().packet_len == 0,
            r.spec_peer() == peer,
            r.spec_phase() == Phase::AwaitResponse,
    {
        Self::with_header(StreamHeader::new(0), peer)
    }

    /// The header that this side announces, and keys the connection with.
    pub fn header(&self) -> (r: &StreamHeader)
        ensures
            r@ == self.spec_header(),
    {
        &self.header
    }

    pub fn peer(&self) -> (r: L4Addr)
        ensures
            r == self.spec_peer(),
    {
        self.peer
    }

    pub fn phase(&self) -> (r: Phase)
        ensures
            r == self.spec_phase(),
    {
        self.phase
    }

    /// Takes the responder's decrypted message: the challenge and the header
    /// it echoes. When the echoed checksum matches, the challenge is handed
    /// back to be encrypted and returned; else the attempt is denied.
    pub fn on_response(&mut self, payload: Vec<u8>, echoed: &StreamHeader) -> (r: Result<
        Vec<u8>,
        NetworkError,
    >)
        requires
            old(self).spec_phase() == Phase::AwaitResponse,
        ensures
            final(self).spec_header() == old(self).spec_header(),
            final(self).spec_peer() == old(self).spec_peer(),
            echo_accepted(old(self).spec_header(), echoed@) ==> (r matches Ok(p) && p@ == payload@
                && final(self).spec_phase() == Phase::AwaitAck),
            !echo_accepted(old(self).spec_header(), echoed@) ==> (r matches Err(
                NetworkError::ConnectionDenied(_),
            ) && final(self).spec_phase() == Phase::Denied),
    {
        if crate::protocol::bytes_eq(echoed.checksum(), self.header.checksum()) {
            self.phase = Phase::AwaitAck;
            Ok(payload)
        } else {
            self.phase = Phase::Denied;
            Err(denied("headers don't match"))
        }
    }

    /// Takes the decrypted acknowledgement (`None` when it did not decrypt).
    /// Only `okay` establishes the connection.
    pub fn on_ack(&mut self, plaintext: Option<&[u8]>) -> (r: Result<(), NetworkError>)
        requires
            old(self).spec_phase() == Phase::AwaitAck,
        ensures
            final(self).spec_header() == old(self).spec_header(),
            final(self).spec_peer() == old(self).spec_peer(),
            ({
                let p = match plaintext {
                    Some(s) => Some(s@),
                    None => None,
                };
                &&& ack_accepted(p) ==> (r is Ok && final(self).spec_phase() == Phase::Established)
                &&& !ack_accepted(p) ==> (r matches Err(NetworkError::ConnectionDenied(_))
                    && final(self).spec_phase() == Phase::Denied)
            }),
    {
        let ack = ack_message();
        let ok = match plaintext {
            Some(s) => crate::protocol::bytes_eq(s, ack.as_slice()),
            None => false,
        };
        if ok {
            self.phase = Phase::Established;
            Ok(())
        } else {
            self.phase = Phase::Denied;
            Err(denied("connection failed"))
        }
    }

    /// The header and the peer address of an established connection.
    pub fn finish(self) -> (r: (StreamHeader, L4Addr))
        requires
            self.spec_phase() == Phase::Established,
        ensures
            r.0@ == self.spec_header(),
            r.1 == self.spec_peer(),
    {
        (self.header, self.peer)
    }
}

/// The side that accepts a connection: it challenges the peer to prove that
/// it holds the private key of the public key it announced.
pub struct Responder {
    header: StreamHeader,
    route: L4Addr,
    challenge: Vec<u8>,
    phase: Phase,
}

impl Responder {
    pub closed spec fn spec_header(&self) -> HeaderView {
        self.header@
    }

    pub closed spec fn spec_route(&self) -> L4Addr {
        self.route
    }

    pub closed spec fn spec_challenge(&self) -> Seq<u8> {
        self.challenge@
    }

    pub closed spec fn spec_phase(&self) -> Phase {
        self.phase
    }

    /// Takes a decrypted announcement, seen on a TCP connection from
    /// `observed`, that claims the address `claimed`, with the challenge to
    /// send.
    pub fn with_challenge(
        header: StreamHeader,
        observed: L4Addr,
        claimed: L4Addr,
        challenge: Vec<u8>,
    ) -> (r: Self)
        ensures
            r.spec_header() == header@,
            r.spec_route() == spec_routing_address(observed, claimed),
            r.spec_challenge() == challenge@,
            r.spec_phase() == Phase::AwaitReply,
    {
        Responder {
            header,
            route: routing_address(observed, claimed),
            challenge,
            phase: Phase::AwaitReply,
        }
    }

    /// Takes a decrypted announcement and draws a random challenge of 32
    /// ASCII letters and digits.
    pub fn on_announcement(header: StreamHeader, observed: L4Addr, claimed: L4Addr) -> (r: Self)
        ensures
            r.spec_header() == header@,
            r.spec_route() == spec_routing_address(observed, claimed),
            r.spec_challenge().len() == CHALLENGE_LEN,
            forall|i: int|
                0 <= i < CHALLENGE_LEN ==> is_alphanumeric_byte(#[trigger] r.spec_challenge()[i]),
            r.spec_phase() == Phase::AwaitReply,
    {
        let challenge = random_bytes(CHALLENGE_LEN);
        Self::with_challenge(header, observed, claimed, challenge)
    }

    pub fn header(&self) -> (r: &StreamHeader)
        ensures
            r@ == self.spec_header(),
    {
        &self.header
    }

    /// The address that the peer's datagrams will come from.
    pub fn route(&self) -> (r: L4Addr)
        ensures
            r == self.spec_route(),
    {
        self.route
    }

    pub fn challenge(&self) -> (r: &[u8])
        ensures
            r@ == self.spec_challenge(),
    {
        self.challenge.as_slice()
    }

    pub fn phase(&self) -> (r: Phase)
        ensures
            r == self.spec_phase(),
    {
        self.phase
    }

    /// Takes the peer's decrypted answer. An exact copy of the challenge
    /// establishes the connection and gives the acknowledgement to send;
    /// anything else denies this attempt alone.
    pub fn on_reply(&mut self, reply: &[u8]) -> (r: Result<Vec<u8>, NetworkError>)
        requires
            old(self).spec_phase() == Phase::AwaitReply,
        ensures
            final(self).spec_header() == old(self).spec_header(),
            final(self).spec_route() == old(self).spec_route(),
            final(self).spec_challenge() == old(self).spec_challenge(),
            reply_accepted(old(self).spec_challenge(), reply@) ==> (r matches Ok(a) && a@
                == ack_bytes() && final(self).spec_phase() == Phase::Established),
            !reply_accepted(old(self).spec_challenge(), reply@) ==> (r matches Err(
                NetworkError::ConnectionDenied(_),
            ) && final(self).spec_phase() == Phase::Denied),
    {
        if crate::protocol::bytes_eq(reply, self.challenge.as_slice()) {
            self.phase = Phase::Established;
            Ok(ack_message())
        } else {
            self.phase = Phase::Denied;
            Err(denied("public key verification failed"))
        }
    }

    /// The header and the registry address of an established connection.
    pub fn finish(self) -> (r: (StreamHeader, L4Addr))
        requires
            self.spec_phase() == Phase::Established,
        ensures
            r.0@ == self.spec_header(),
            r.1 == self.spec_route(),
    {
        (self.header, self.route)
    }
}

/// A handshake over a faithful transport succeeds on both sides, and both
/// end with the same 16-byte key: the responder reads the header from the
/// padded wire frame that the initiator sent and echoes it, the initiator
/// returns the challenge unchanged, and the acknowledgement arrives as sent.
pub proof fn lemma_faithful_handshake(sent: HeaderView, challenge: Seq<u8>)
    requires
        valid_header(sent),
    ensures
        ({
            let received = decode(encode_padded(sent).subrange(0, HEADER_LEN as int));
            &&& echo_accepted(sent, received)
            &&& reply_accepted(challenge, challenge)
            &&& ack_accepted(Some(ack_bytes()))
            &&& received.key == sent.key
            &&& received.key.len() == KEY_LEN
        }),
{
    lemma_decode_encode(sent);
}

/// Flipping one bit of the echoed checksum makes the initiator deny the
/// connection.
pub proof fn lemma_checksum_bit_flip(sent: HeaderView, echoed: HeaderView, i: int, bit: u8)
    requires
        sent.checksum.len() == CHECKSUM_LEN,
        0 <= i < CHECKSUM_LEN,
        bit < 8,
        echoed.checksum == sent.checksum.update(i, sent.checksum[i] ^ (1u8 << bit)),
    ensures
        !echo_accepted(sent, echoed),
{
    let x = sent.checksum[i];
    assert(x ^ (1u8 << bit) != x) by (bit_vector)
        requires
            bit < 8,
    ;
    assert(echoed.checksum[i] != sent.checksum[i]);
}

/// An answer that differs from the challenge is denied.
pub proof fn lemma_wrong_reply_denied(challenge: Seq<u8>, reply: Seq<u8>)
    requires
        reply != challenge,
    ensures
        !reply_accepted(challenge, reply),
{
}

} // verus!
