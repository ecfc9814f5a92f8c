use verifyudp::stream::{datagram, deliver, sent_len};
use verifyudp::{NetworkError, StreamHeader};

fn header() -> StreamHeader {
    StreamHeader::with_key(vec![3u8; 16], 0)
}

#[test]
fn two_messages_give_two_boundaries() {
    let own = header();
    let first = vec![b'a'; 65];
    let second = vec![b'b'; 130];
    let mut plain = first.clone();
    plain.extend_from_slice(&second);
    let mut buf = Vec::new();
    let idx = deliver(&own, &own.clone(), &plain, &[0, 65], &mut buf).unwrap();
    assert_eq!(idx, vec![0, 65]);
    assert_eq!(&buf[idx[0]..idx[1]], &first[..]);
    assert_eq!(&buf[idx[1]..], &second[..]);
}

#[test]
fn boundaries_are_offsets_in_the_callers_buffer() {
    let own = header();
    let mut buf = vec![1u8, 2, 3];
    let idx = deliver(&own, &own.clone(), b"hello", &[0, 2], &mut buf).unwrap();
    assert_eq!(idx, vec![3, 5]);
    assert_eq!(buf, vec![1, 2, 3, b'h', b'e', b'l', b'l', b'o']);
}

#[test]
fn checksum_mismatch_is_denied_and_buffer_kept() {
    let own = header();
    let mut raw = own.to_raw();
    raw[5] ^= 0x10;
    let other = StreamHeader::from_raw(&raw).unwrap();
    let mut buf = vec![9u8];
    let r = deliver(&own, &other, b"data", &[0], &mut buf);
    assert!(matches!(r, Err(NetworkError::ConnectionDenied(_))));
    assert_eq!(buf, vec![9]);
}

#[test]
fn boundary_past_data_is_malformed() {
    let own = header();
    let mut buf = Vec::new();
    let r = deliver(&own, &own.clone(), b"abc", &[0, 4], &mut buf);
    assert!(matches!(r, Err(NetworkError::FromSlice(_))));
    assert!(buf.is_empty());
}

#[test]
fn send_reports_plaintext_length() {
    assert_eq!(sent_len(&[0u8; 1400]), 1400);
    assert_eq!(sent_len(&[]), 0);
}

#[test]
fn datagram_copies_the_bytes_read() {
    let buffer = [7u8, 8, 9, 10, 11];
    assert_eq!(datagram(&buffer, 3), (vec![7, 8, 9], 3));
    assert_eq!(datagram(&buffer, 0), (vec![], 0));
}
