use verifyudp::handshake::{ack_message, routing_address, Initiator, Phase, Responder};
use verifyudp::{L3Addr, L4Addr, NetworkError, StreamHeader};

fn addr(d: u8, port: u16) -> L4Addr {
    L4Addr::new(L3Addr::newv4(10, 0, 0, d), port)
}

#[test]
fn faithful_handshake_shares_the_key() {
    let mut init = Initiator::start(addr(2, 6432));
    // The responder decrypts the announcement: the same header.
    let received = StreamHeader::from_raw(&init.header().to_raw()).unwrap();
    let mut resp = Responder::on_announcement(received, addr(2, 40000), addr(99, 3232));
    assert_eq!(resp.challenge().len(), 32);
    assert!(resp.challenge().iter().all(|b| b.is_ascii_alphanumeric()));
    let echoed = resp.header().clone();
    let answer = init.on_response(resp.challenge().to_vec(), &echoed).unwrap();
    assert_eq!(init.phase(), Phase::AwaitAck);
    let ack = resp.on_reply(&answer).unwrap();
    assert_eq!(ack, b"okay".to_vec());
    assert_eq!(resp.phase(), Phase::Established);
    init.on_ack(Some(&ack)).unwrap();
    assert_eq!(init.phase(), Phase::Established);
    let (ih, peer) = init.finish();
    let (rh, route) = resp.finish();
    assert_eq!(ih.key(), rh.key());
    assert_eq!(ih.key().len(), 16);
    assert_eq!(peer, addr(2, 6432));
    assert_eq!(route, addr(2, 3232));
}

#[test]
fn flipped_checksum_bit_is_denied() {
    for byte in [0usize, 17, 31] {
        for bit in 0..8u8 {
            let mut init = Initiator::start(addr(2, 6432));
            let mut raw = init.header().to_raw();
            raw[byte] ^= 1 << bit;
            let echoed = StreamHeader::from_raw(&raw).unwrap();
            let r = init.on_response(vec![1, 2, 3], &echoed);
            assert!(matches!(r, Err(NetworkError::ConnectionDenied(_))));
            assert_eq!(init.phase(), Phase::Denied);
        }
    }
}

#[test]
fn wrong_challenge_reply_is_denied() {
    let header = StreamHeader::with_key(vec![5u8; 16], 0);
    let mut resp = Responder::with_challenge(header, addr(3, 1), addr(3, 2), b"abc".to_vec());
    let r = resp.on_reply(b"abd");
    assert!(matches!(r, Err(NetworkError::ConnectionDenied(_))));
    assert_eq!(resp.phase(), Phase::Denied);
    // The next attempt is served as usual.
    let header = StreamHeader::with_key(vec![6u8; 16], 0);
    let mut next = Responder::with_challenge(header, addr(4, 1), addr(4, 2), b"abc".to_vec());
    assert!(next.on_reply(b"abc").is_ok());
    assert_eq!(next.phase(), Phase::Established);
}

#[test]
fn bad_or_missing_ack_is_denied() {
    for ack in [Some(&b"okey"[..]), Some(&b"okay!"[..]), Some(&b""[..]), None] {
        let header = StreamHeader::with_key(vec![1u8; 16], 0);
        let mut init = Initiator::with_header(header, addr(5, 6432));
        let echoed = StreamHeader::with_key(vec![2u8; 16], 0);
        init.on_response(vec![9], &echoed).unwrap();
        let r = init.on_ack(ack);
        assert!(matches!(r, Err(NetworkError::ConnectionDenied(_))));
        assert_eq!(init.phase(), Phase::Denied);
    }
}

#[test]
fn routing_uses_observed_ip_and_claimed_port() {
    let r = routing_address(addr(7, 5555), addr(8, 6666));
    assert_eq!(r, addr(7, 6666));
    assert_eq!(ack_message(), vec![b'o', b'k', b'a', b'y']);
}
