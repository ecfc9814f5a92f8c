use vstd::prelude::*;

use crate::error::NetworkError;
use crate::utils::{is_alphanumeric_byte, random_bytes};

verus! {

/// Length of an encoded header.
pub const HEADER_LEN: usize = 58;

/// Length of a padded header frame: the header and the reserved bytes that
/// make it a whole number of cipher blocks.
pub const PADDED_HEADER_LEN: usize = 129;

/// Number of reserved bytes after the header in a padded frame.
pub const HEADER_PADDING: usize = 71;

pub const CHECKSUM_LEN: usize = 32;

pub const KEY_LEN: usize = 16;

/// What a packet carries.
#[derive(Clone, Copy, Debug, PartialEq, Eq, Structural, PartialOrd, Ord, Hash)]
pub enum PacketType {
    RawData,
    RawDataAck,
    Admin,
    AdminAck,
}

impl PacketType {
    /// The tag byte of the packet type on the wire.
    pub open spec fn spec_to_u8(self) -> u8 {
        match self {
            PacketType::RawData => 0,
            PacketType::RawDataAck => 1,
            PacketType::Admin => 2,
            PacketType::AdminAck => 3,
        }
    }

    /// The packet type of a tag byte; an unknown tag reads as `RawData`.
    pub open spec fn spec_from_u8(b: u8) -> PacketType {
        if b == 1 {
            PacketType::RawDataAck
        } else if b == 2 {
            PacketType::Admin
        } else if b == 3 {
            PacketType::AdminAck
        } else {
            PacketType::RawData
        }
    }

    pub fn to_u8(self) -> (r: u8)
        ensures
            r == self.spec_to_u8(),
    {
        match self {
            PacketType::RawData => 0,
            PacketType::RawDataAck => 1,
            PacketType::Admin => 2,
            PacketType::AdminAck => 3,
        }
    }

    pub fn from_u8(b: u8) -> (r: PacketType)
        ensures
            r == PacketType::spec_from_u8(b),
    {
        if b == 1 {
            PacketType::RawDataAck
        } else if b == 2 {
            PacketType::Admin
        } else if b == 3 {
            PacketType::AdminAck
        } else {
            PacketType::RawData
        }
    }
}

impl Default for PacketType {
    fn default() -> (r: Self)
        ensures
            r == PacketType::RawData,
    {
        PacketType::RawData
    }
}

/// The mathematical content of a header.
pub struct HeaderView {
    pub checksum: Seq<u8>,
    pub key: Seq<u8>,
    pub packet_len: usize,
    pub packet_type: PacketType,
    pub remander: u8,
}

/// The eight bytes of `x`, most significant first.
pub open spec fn be_bytes(x: u64) -> Seq<u8> {
    seq![
        (x >> 56u64) as u8,
        (x >> 48u64) as u8,
        (x >> 40u64) as u8,
        (x >> 32u64) as u8,
        (x >> 24u64) as u8,
        (x >> 16u64) as u8,
        (x >> 8u64) as u8,
        x as u8,
    ]
}

/// The number whose big-endian bytes are the first eight of `s`.
pub open spec fn be_value(s: Seq<u8>) -> u64 {
    ((s[0] as u64) << 56u64) | ((s[1] as u64) << 48u64) | ((s[2] as u64) << 40u64) | ((
    s[3] as u64) << 32u64) | ((s[4] as u64) << 24u64) | ((s[5] as u64) << 16u64) | ((
    s[6] as u64) << 8u64) | (s[7] as u64)
}

/// The wire form of a header: checksum, key, big-endian length, remainder
/// and packet type.
pub open spec fn encode(h: HeaderView) -> Seq<u8> {
    h.checksum + h.key + be_bytes(h.packet_len as u64) + seq![h.remander, h.packet_type.spec_to_u8()]
}

/// The header that a 58-byte wire form holds.
pub open spec fn decode(data: Seq<u8>) -> HeaderView {
    HeaderView {
        checksum: data.subrange(0, 32),
        key: data.subrange(32, 48),
        packet_len: be_value(data.subrange(48, 56)) as usize,
        remander: data[56],
        packet_type: PacketType::spec_from_u8(data[57]),
    }
}

/// The wire form followed by the reserved bytes, which are zero.
pub open spec fn encode_padded(h: HeaderView) -> Seq<u8> {
    encode(h) + Seq::new(HEADER_PADDING as nat, |i: int| 0u8)
}

/// A header whose checksum and key have their wire sizes.
pub open spec fn valid_header(h: HeaderView) -> bool {
    h.checksum.len() == CHECKSUM_LEN && h.key.len() == KEY_LEN
}

/// Per-connection metadata: an integrity checksum fixed at creation, the
/// symmetric key, and the length, remainder and type of a single message.
#[derive(Debug)]
pub struct StreamHeader {
    checksum: Vec<u8>,
    aes_key: Vec<u8>,
    packet_len: usize,
    packet_type: PacketType,
    remander: u8,
}

impl View for StreamHeader {
    type V = HeaderView;

    closed spec fn view(&self) -> HeaderView {
        HeaderView {
            checksum: self.checksum@,
            key: self.aes_key@,
            packet_len: self.packet_len,
            packet_type: self.packet_type,
            remander: self.remander,
        }
    }
}

impl Clone for StreamHeader {
    fn clone(&self) -> (r: Self)
        ensures
            r@ == self@,
    {
        proof {
            use_type_invariant(self);
        }
        let mut checksum: Vec<u8> = Vec::new();
        append_bytes(&mut checksum, self.checksum.as_slice());
        let mut aes_key: Vec<u8> = Vec::new();
        append_bytes(&mut aes_key, self.aes_key.as_slice());
        proof {
            assert(checksum@ =~= self.checksum@);
            assert(aes_key@ =~= self.aes_key@);
        }
        StreamHeader {
            checksum,
            aes_key,
            packet_len: self.packet_len,
            packet_type: self.packet_type,
            remander: self.remander,
        }
    }
}

impl PartialEq for StreamHeader {
    fn eq(&self, o: &StreamHeader) -> (r: bool) {
        proof {
            use_type_invariant(self);
            use_type_invariant(o);
        }
        bytes_eq(self.checksum.as_slice(), o.checksum.as_slice()) && bytes_eq(
            self.aes_key.as_slice(),
            o.aes_key.as_slice(),
        ) && self.packet_len == o.packet_len && self.packet_type == o.packet_type
            && self.remander == o.remander
    }
}

impl vstd::std_specs::cmp::PartialEqSpecImpl for StreamHeader {
    open spec fn obeys_eq_spec() -> bool {
        true
    }

    open spec fn eq_spec(&self, o: &StreamHeader) -> bool {
        self@ == o@
    }
}

/// Whether two byte strings are equal.
pub fn bytes_eq(a: &[u8], b: &[u8]) -> (r: bool)
    ensures
        r == (a@ == b@),
{
    if a.len() != b.len() {
        return false;
    }
    let mut i: usize = 0;
    while i < a.len()
        invariant
            a@.len() == b@.len(),
            0 <= i <= a@.len(),
            forall|j: int| 0 <= j < i ==> a@[j] == b@[j],
        decreases a@.len() - i,
    {
        if a[i] != b[i] {
            return false;
        }
        i = i + 1;
    }
    proof {
        assert(a@ =~= b@);
    }
    true
}

/// Appends the bytes of `src` to `dst`.
fn append_bytes(dst: &mut Vec<u8>, src: &[u8])
    ensures
        final(dst)@ == old(dst)@ + src@,
{
    let mut i: usize = 0;
    while i < src.len()
        invariant
            0 <= i <= src@.len(),
            dst@ == old(dst)@ + src@.subrange(0, i as int),
        decreases src@.len() - i,
    {
        dst.push(src[i]);
        i = i + 1;
        proof {
            assert(dst@ =~= old(dst)@ + src@.subrange(0, i as int));
        }
    }
    proof {
        assert(src@.subrange(0, src@.len() as int) =~= src@);
    }
}

/// A copy of `s[start..end]`.
pub(crate) fn copy_range(s: &[u8], start: usize, end: usize) -> (r: Vec<u8>)
    requires
        start <= end <= s@.len(),
    ensures
        r@ == s@.subrange(start as int, end as int),
{
    let mut r: Vec<u8> = Vec::with_capacity(end - start);
    let mut i: usize = start;
    while i < end
        invariant
            start <= i <= end <= s@.len(),
            r@ == s@.subrange(start as int, i as int),
        decreases end - i,
    {
        r.push(s[i]);
        i = i + 1;
        proof {
            assert(r@ =~= s@.subrange(start as int, i as int));
        }
    }
    r
}

/// A copy of `s`.
pub(crate) fn copy_bytes(s: &[u8]) -> (r: Vec<u8>)
    ensures
        r@ == s@,
{
    let r = copy_range(s, 0, s.len());
    proof {
        assert(s@.subrange(0, s@.len() as int) =~= s@);
    }
    r
}

impl StreamHeader {
    #[verifier::type_invariant]
    spec fn well_formed(self) -> bool {
        self.checksum@.len() == CHECKSUM_LEN && self.aes_key@.len() == KEY_LEN
    }

    /// A header with a fresh random key of 16 ASCII letters and digits, a
    /// zero checksum, the given packet length, no remainder, and type
    /// `RawData`.
    pub fn new(packet_len: usize) -> (r: Self)
        ensures
            r@.checksum == Seq::new(CHECKSUM_LEN as nat, |i: int| 0u8),
            r@.key.len() == KEY_LEN,
            forall|i: int| 0 <= i < KEY_LEN ==> is_alphanumeric_byte(#[trigger] r@.key[i]),
            r@.packet_len == packet_len,
            r@.packet_type == PacketType::RawData,
            r@.remander == 0,
    {
        let aes_key = random_bytes(KEY_LEN);
        Self::with_key(aes_key, packet_len)
    }

    /// A header with a zero checksum, the given key and packet length, no
    /// remainder, and type `RawData`.
    pub fn with_key(aes_key: Vec<u8>, packet_len: usize) -> (r: Self)
        requires
            aes_key@.len() == KEY_LEN,
        ensures
            r@.checksum == Seq::new(CHECKSUM_LEN as nat, |i: int| 0u8),
            r@.key == aes_key@,
            r@.packet_len == packet_len,
            r@.packet_type == PacketType::RawData,
            r@.remander == 0,
    {
        let checksum: Vec<u8> = vec![0u8; CHECKSUM_LEN];
        proof {
            assert(checksum@ =~= Seq::new(CHECKSUM_LEN as nat, |i: int| 0u8));
        }
        StreamHeader { checksum, aes_key, packet_len, packet_type: PacketType::RawData, remander: 0 }
    }

    pub fn set_packet_type(&mut self, packet_type: PacketType)
        ensures
            final(self)@ == (HeaderView { packet_type, ..old(self)@ }),
    {
        proof {
            use_type_invariant(&*self);
        }
        self.packet_type = packet_type;
    }

    pub fn packet_type(&self) -> (r: PacketType)
        ensures
            r == self@.packet_type,
    {
        self.packet_type
    }

    pub fn key(&self) -> (r: &[u8])
        ensures
            r@ == self@.key,
            valid_header(self@),
            r@.len() == KEY_LEN,
    {
        proof {
            use_type_invariant(self);
        }
        self.aes_key.as_slice()
    }

    pub fn packet_len(&self) -> (r: usize)
        ensures
            r == self@.packet_len,
    {
        self.packet_len
    }

    /// The packet length; the same field as `packet_len`.
    pub fn data_len(&self) -> (r: usize)
        ensures
            r == self@.packet_len,
    {
        self.packet_len
    }

    pub fn set_packet_len(&mut self, packet_len: usize)
        ensures
            final(self)@ == (HeaderView { packet_len, ..old(self)@ }),
    {
        proof {
            use_type_invariant(&*self);
        }
        self.packet_len = packet_len;
    }

    /// The number of padding bytes that complete the last cipher block.
    pub fn remander(&self) -> (r: u8)
        ensures
            r == self@.remander,
    {
        self.remander
    }

    pub fn set_remander(&mut self, remander: u8)
        ensures
            final(self)@ == (HeaderView { remander, ..old(self)@ }),
    {
        proof {
            use_type_invariant(&*self);
        }
        self.remander = remander;
    }

    pub fn checksum(&self) -> (r: &[u8])
        ensures
            r@ == self@.checksum,
            r@.len() == CHECKSUM_LEN,
    {
        proof {
            use_type_invariant(self);
        }
        self.checksum.as_slice()
    }

    /// The 58-byte wire form of the header.
    pub fn to_raw(&self) -> (r: Vec<u8>)
        ensures
            r@ == encode(self@),
            r@.len() == HEADER_LEN,
            valid_header(self@),
    {
        proof {
            use_type_invariant(self);
        }
        let mut out: Vec<u8> = Vec::with_capacity(HEADER_LEN);
        append_bytes(&mut out, self.checksum.as_slice());
        append_bytes(&mut out, self.aes_key.as_slice());
        let n: u64 = self.packet_len as u64;
        out.push((n >> 56u64) as u8);
        out.push((n >> 48u64) as u8);
        out.push((n >> 40u64) as u8);
        out.push((n >> 32u64) as u8);
        out.push((n >> 24u64) as u8);
        out.push((n >> 16u64) as u8);
        out.push((n >> 8u64) as u8);
        out.push(n as u8);
        out.push(self.remander);
        out.push(self.packet_type.to_u8());
        proof {
            assert(out@ =~= encode(self@));
        }
        out
    }

    /// The wire form followed by 71 zero bytes: a 129-byte frame.
    pub fn to_raw_padded(&self) -> (r: Vec<u8>)
        ensures
            r@ == encode_padded(self@),
            r@.len() == PADDED_HEADER_LEN,
    {
        let mut out = self.to_raw();
        let mut i: usize = 0;
        while i < HEADER_PADDING
            invariant
                0 <= i <= HEADER_PADDING,
                out@ == encode(self@) + Seq::new(i as nat, |j: int| 0u8),
            decreases HEADER_PADDING - i,
        {
            out.push(0u8);
            i = i + 1;
            proof {
                assert(out@ =~= encode(self@) + Seq::new(i as nat, |j: int| 0u8));
            }
        }
        out
    }

    /// Reads a header from its 58-byte wire form. Any other length is an
    /// error; an unknown type tag reads as `RawData`.
    pub fn from_raw(data: &[u8]) -> (r: Result<Self, NetworkError>)
        ensures
            data@.len() == HEADER_LEN ==> (r matches Ok(h) && h@ == decode(data@)),
            data@.len() != HEADER_LEN ==> (r matches Err(NetworkError::FromSlice(_))),
    {
        if data.len() != HEADER_LEN {
            return Err(NetworkError::FromSlice(String::from_str("a header is 58 bytes")));
        }
        let checksum = copy_range(data, 0, 32);
        let aes_key = copy_range(data, 32, 48);
        let v: u64 = ((data[48] as u64) << 56u64) | ((data[49] as u64) << 48u64) | ((
        data[50] as u64) << 40u64) | ((data[51] as u64) << 32u64) | ((data[52] as u64)
            << 24u64) | ((data[53] as u64) << 16u64) | ((data[54] as u64) << 8u64) | (
        data[55] as u64);
        proof {
            let s = data@.subrange(48, 56);
            assert(s[0] == data@[48] && s[1] == data@[49] && s[2] == data@[50] && s[3]
                == data@[51]);
            assert(s[4] == data@[52] && s[5] == data@[53] && s[6] == data@[54] && s[7]
                == data@[55]);
        }
        let h = StreamHeader {
            checksum,
            aes_key,
            packet_len: v as usize,
            remander: data[56],
            packet_type: PacketType::from_u8(data[57]),
        };
        Ok(h)
    }

    /// Reads a header from the first 58 bytes of a padded frame. A buffer
    /// shorter than that is an error.
    pub fn from_raw_padded(data: &[u8]) -> (r: Result<Self, NetworkError>)
        ensures
            data@.len() >= HEADER_LEN ==> (r matches Ok(h) && h@ == decode(
                data@.subrange(0, HEADER_LEN as int),
            )),
            data@.len() < HEADER_LEN ==> (r matches Err(NetworkError::FromSlice(_))),
    {
        if data.len() < HEADER_LEN {
            return Err(NetworkError::FromSlice(String::from_str("a padded header is 129 bytes")));
        }
        let head = copy_range(data, 0, HEADER_LEN);
        Self::from_raw(head.as_slice())
    }
}

/// The 58-byte wire form determines the header: decoding what `to_raw`
/// writes gives back the header, and the wire form is always 58 bytes
/// (129 when padded).
pub proof fn lemma_decode_encode(h: HeaderView)
    requires
        valid_header(h),
    ensures
        encode(h).len() == HEADER_LEN,
        encode_padded(h).len() == PADDED_HEADER_LEN,
        decode(encode(h)) == h,
        decode(encode_padded(h).subrange(0, HEADER_LEN as int)) == h,
{
    let e = encode(h);
    let n = h.packet_len as u64;
    let b = be_bytes(n);
    assert(e.subrange(0, 32) =~= h.checksum);
    assert(e.subrange(32, 48) =~= h.key);
    assert(e.subrange(48, 56) =~= b);
    assert(be_value(b) == n) by {
        lemma_be_round_trip(n);
    }
    assert(PacketType::spec_from_u8(h.packet_type.spec_to_u8()) == h.packet_type);
    assert(decode(e) =~= h);
    assert(encode_padded(h).subrange(0, HEADER_LEN as int) =~= e);
}

/// Reading back the big-endian bytes of a number gives the number.
pub proof fn lemma_be_round_trip(x: u64)
    ensures
        be_value(be_bytes(x)) == x,
{
    let b = be_bytes(x);
    let b0 = (x >> 56u64) as u8;
    let b1 = (x >> 48u64) as u8;
    let b2 = (x >> 40u64) as u8;
    let b3 = (x >> 32u64) as u8;
    let b4 = (x >> 24u64) as u8;
    let b5 = (x >> 16u64) as u8;
    let b6 = (x >> 8u64) as u8;
    let b7 = x as u8;
    assert(b[0] == b0 && b[1] == b1 && b[2] == b2 && b[3] == b3);
    assert(b[4] == b4 && b[5] == b5 && b[6] == b6 && b[7] == b7);
    assert(((((x >> 56u64) as u8) as u64) << 56u64) | ((((x >> 48u64) as u8) as u64) << 48u64)
        | ((((x >> 40u64) as u8) as u64) << 40u64) | ((((x >> 32u64) as u8) as u64) << 32u64)
        | ((((x >> 24u64) as u8) as u64) << 24u64) | ((((x >> 16u64) as u8) as u64) << 16u64)
        | ((((x >> 8u64) as u8) as u64) << 8u64) | ((x as u8) as u64) == x) by (bit_vector);
}

} // verus!
