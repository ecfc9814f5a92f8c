use vstd::prelude::*;

use crate::error::NetworkError;
use crate::protocol::{bytes_eq, StreamHeader};

verus! {

/// The boundaries of the decrypted messages, as offsets in a buffer that
/// already held `base` bytes.
pub open spec fn shifted(indexes: Seq<usize>, base: nat) -> Seq<int> {
    Seq::new(indexes.len(), |j: int| indexes[j] + base)
}

/// Whether every boundary lies within the decrypted data.
pub open spec fn boundaries_within(indexes: Seq<usize>, len: nat) -> bool {
    forall|j: int| 0 <= j < indexes.len() ==> #[trigger] indexes[j] <= len
}

/// Receives one decrypted datagram for a connection keyed by `own`.
///
/// `received` is the header that decryption recovered, `plaintext` the
/// decrypted bytes, and `indexes` where in them each message begins. A
/// header whose checksum differs from the connection's is a possible
/// man-in-the-middle and is denied; a boundary past the end of the data is
/// malformed. Either way `outbuf` is left as it was. Otherwise the plaintext
/// is appended to `outbuf` and the boundaries are returned as offsets in
/// `outbuf`.
pub fn deliver(
    own: &StreamHeader,
    received: &StreamHeader,
    plaintext: &[u8],
    indexes: &[usize],
    outbuf: &mut Vec<u8>,
) -> (r: Result<Vec<usize>, NetworkError>)
    ensures
        received@.checksum != own@.checksum ==> (r matches Err(NetworkError::ConnectionDenied(_))),
        received@.checksum == own@.checksum && !boundaries_within(indexes@, plaintext@.len())
            ==> (r matches Err(NetworkError::FromSlice(_))),
        r is Err ==> final(outbuf)@ == old(outbuf)@,
        received@.checksum == own@.checksum && boundaries_within(indexes@, plaintext@.len()) ==> (
        r matches Ok(offsets) && final(outbuf)@ == old(outbuf)@ + plaintext@ && offsets@.map_values(
            |o: usize| o as int,
        ) == shifted(indexes@, old(outbuf)@.len())),
{
    if !bytes_eq(received.checksum(), own.checksum()) {
        return Err(NetworkError::ConnectionDenied(String::from_str("potential man in the middle attack")));
    }
    let mut k: usize = 0;
    while k < indexes.len()
        invariant
            0 <= k <= indexes@.len(),
            received@.checksum == own@.checksum,
            forall|j: int| 0 <= j < k ==> #[trigger] indexes@[j] <= plaintext@.len(),
        decreases indexes@.len() - k,
    {
        if indexes[k] > plaintext.len() {
            return Err(NetworkError::FromSlice(String::from_str("message boundary past the data")));
        }
        k = k + 1;
    }
    let base = outbuf.len();
    let mut i: usize = 0;
    while i < plaintext.len()
        invariant
            0 <= i <= plaintext@.len(),
            base == old(outbuf)@.len(),
            outbuf@ == old(outbuf)@ + plaintext@.subrange(0, i as int),
        decreases plaintext@.len() - i,
    {
        outbuf.push(plaintext[i]);
        i = i + 1;
        proof {
            assert(outbuf@ =~= old(outbuf)@ + plaintext@.subrange(0, i as int));
        }
    }
    proof {
        assert(plaintext@.subrange(0, plaintext@.len() as int) =~= plaintext@);
    }
    let total = outbuf.len();
    let mut offsets: Vec<usize> = Vec::with_capacity(indexes.len());
    let mut j: usize = 0;
    while j < indexes.len()
        invariant
            0 <= j <= indexes@.len(),
            boundaries_within(indexes@, plaintext@.len()),
            base + plaintext@.len() == outbuf@.len(),
            total == outbuf@.len(),
            offsets@.len() == j,
            forall|m: int| 0 <= m < j ==> #[trigger] offsets@[m] == indexes@[m] + base,
        decreases indexes@.len() - j,
    {
        offsets.push(indexes[j] + base);
        j = j + 1;
    }
    proof {
        assert(offsets@.map_values(|o: usize| o as int) =~= shifted(indexes@, base as nat));
    }
    Ok(offsets)
}

/// What the ingress pump forwards for a datagram of `len` bytes read into
/// `buffer`: a copy of those bytes, and their number.
pub fn datagram(buffer: &[u8], len: usize) -> (r: (Vec<u8>, usize))
    requires
        len <= buffer@.len(),
    ensures
        r.0@ == buffer@.subrange(0, len as int),
        r.1 == len,
{
    (crate::protocol::copy_range(buffer, 0, len), len)
}

/// The number of plaintext bytes that a send reports: all of them, once the
/// ciphertext is queued.
pub fn sent_len(plaintext: &[u8]) -> (r: usize)
    ensures
        r == plaintext@.len(),
{
    plaintext.len()
}

} // verus!
