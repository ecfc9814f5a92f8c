use verifyudp::{PacketType, StreamHeader, NetworkError};

fn sample_header() -> StreamHeader {
    let key: Vec<u8> = (0u8..16).collect();
    let mut h = StreamHeader::with_key(key, 0x0102_0304_0506_0708);
    h.set_remander(7);
    h.set_packet_type(PacketType::Admin);
    h
}

#[test]
fn encode_is_58_bytes_in_field_order() {
    let raw = sample_header().to_raw();
    assert_eq!(raw.len(), 58);
    assert!(raw[0..32].iter().all(|b| *b == 0));
    assert_eq!(&raw[32..48], &(0u8..16).collect::<Vec<u8>>()[..]);
    assert_eq!(&raw[48..56], &[1, 2, 3, 4, 5, 6, 7, 8]);
    assert_eq!(raw[56], 7);
    assert_eq!(raw[57], 2);
}

#[test]
fn decode_inverts_encode() {
    let h = sample_header();
    let back = StreamHeader::from_raw(&h.to_raw()).unwrap();
    assert!(back == h);
    assert_eq!(back.packet_len(), 0x0102_0304_0506_0708);
    assert_eq!(back.remander(), 7);
    assert_eq!(back.packet_type(), PacketType::Admin);
    assert_eq!(back.key(), h.key());
}

#[test]
fn random_header_round_trips() {
    let h = StreamHeader::new(42);
    assert_eq!(h.key().len(), 16);
    assert!(h.key().iter().all(|b| b.is_ascii_alphanumeric()));
    let back = StreamHeader::from_raw(&h.to_raw()).unwrap();
    assert!(back == h);
}

#[test]
fn padded_frame_is_129_bytes_and_decodes() {
    let h = sample_header();
    let padded = h.to_raw_padded();
    assert_eq!(padded.len(), 129);
    assert!(padded[58..].iter().all(|b| *b == 0));
    let back = StreamHeader::from_raw_padded(&padded).unwrap();
    assert!(back == h);
}

#[test]
fn wrong_length_is_a_parse_error() {
    let raw = sample_header().to_raw();
    assert!(matches!(StreamHeader::from_raw(&raw[0..57]), Err(NetworkError::FromSlice(_))));
    let mut longer = raw.clone();
    longer.push(0);
    assert!(matches!(StreamHeader::from_raw(&longer), Err(NetworkError::FromSlice(_))));
    assert!(matches!(StreamHeader::from_raw(&[]), Err(NetworkError::FromSlice(_))));
    assert!(matches!(StreamHeader::from_raw_padded(&raw[0..40]), Err(NetworkError::FromSlice(_))));
}

#[test]
fn unknown_type_tag_reads_as_raw_data() {
    let mut raw = sample_header().to_raw();
    raw[57] = 200;
    let h = StreamHeader::from_raw(&raw).unwrap();
    assert_eq!(h.packet_type(), PacketType::RawData);
    raw[57] = 3;
    assert_eq!(StreamHeader::from_raw(&raw).unwrap().packet_type(), PacketType::AdminAck);
}

#[test]
fn packet_type_tags() {
    assert_eq!(PacketType::RawData.to_u8(), 0);
    assert_eq!(PacketType::RawDataAck.to_u8(), 1);
    assert_eq!(PacketType::Admin.to_u8(), 2);
    assert_eq!(PacketType::AdminAck.to_u8(), 3);
    assert_eq!(PacketType::from_u8(1), PacketType::RawDataAck);
    assert_eq!(PacketType::from_u8(4), PacketType::RawData);
    assert_eq!(PacketType::default(), PacketType::RawData);
}

#[test]
fn setters_change_one_field() {
    let mut h = sample_header();
    h.set_packet_len(9);
    assert_eq!(h.packet_len(), 9);
    assert_eq!(h.data_len(), 9);
    assert_eq!(h.remander(), 7);
    assert_eq!(h.checksum(), &[0u8; 32][..]);
    let c = h.clone();
    assert!(c == h);
}
