//! Frame header parsing: recover the declared total frame length from the
//! first bytes of a packet, masking the continuation flag and rejecting
//! garbage lengths.

use vstd::prelude::*;
use crate::bno_constants::{MAX_CARGO_DATA_LENGTH, PACKET_HEADER_LENGTH};

verus! {

/// The raw 15-bit length encoded in the first two header bytes,
/// little-endian, with the continuation flag (bit 7 of the second byte)
/// masked off.
pub open spec fn spec_raw_len(b: Seq<u8>) -> int {
    b[0] + 256 * (b[1] & 0x7f)
}

/// What header parsing yields on a byte buffer: 0 when the buffer is
/// shorter than a header, 0 when the declared length exceeds the maximum
/// cargo size, and the declared length otherwise.
pub open spec fn spec_header_len(b: Seq<u8>) -> int {
    if b.len() < PACKET_HEADER_LENGTH {
        0
    } else if spec_raw_len(b) > MAX_CARGO_DATA_LENGTH {
        0
    } else {
        spec_raw_len(b)
    }
}

/// Parse the fixed-size packet header, returning the declared total frame
/// length (header included), or 0 for a short buffer or a garbage length.
pub fn parse_packet_header(packet: &[u8]) -> (len: usize)
    ensures
        len == spec_header_len(packet@),
        len <= MAX_CARGO_DATA_LENGTH,
        packet@.len() < PACKET_HEADER_LENGTH ==> len == 0,
{
    if packet.len() < PACKET_HEADER_LENGTH {
        return 0;
    }
    let b0: u8 = *vstd::slice::slice_index_get(packet, 0);
    let b1: u8 = *vstd::slice::slice_index_get(packet, 1);
    let masked: u8 = b1 & 0x7f;
    proof {
        assert((b1 & 0x7f) <= 0x7f) by (bit_vector);
    }
    let raw_pack_len: u16 = (b0 as u16) + 256 * (masked as u16);
    let packet_len: usize = raw_pack_len as usize;
    if packet_len > MAX_CARGO_DATA_LENGTH {
        // garbage frames such as [0xFF, 0xFF, 0xFF, 0xFF] land here
        0
    } else {
        packet_len
    }
}

/// The continuation flag does not affect the parsed length: setting or
/// clearing bit 7 of the second header byte leaves the result unchanged.
pub proof fn lemma_continuation_bit_ignored(b: Seq<u8>)
    requires
        b.len() >= PACKET_HEADER_LENGTH,
    ensures
        spec_header_len(b.update(1, b[1] | 0x80)) == spec_header_len(b),
        spec_header_len(b.update(1, b[1] & 0x7f)) == spec_header_len(b),
{
    let x = b[1];
    assert((x | 0x80) & 0x7f == x & 0x7f) by (bit_vector);
    assert((x & 0x7f) & 0x7f == x & 0x7f) by (bit_vector);
}

/// Two buffers that agree on the length bytes (continuation flag aside)
/// parse to the same length.
pub proof fn lemma_header_len_depends_on_length_bits(b: Seq<u8>, c: Seq<u8>)
    requires
        b.len() >= PACKET_HEADER_LENGTH,
        c.len() >= PACKET_HEADER_LENGTH,
        c[0] == b[0],
        c[1] & 0x7f == b[1] & 0x7f,
    ensures
        spec_header_len(c) == spec_header_len(b),
{
}

/// A declared length above the maximum cargo size is rejected outright:
/// the parsed length is 0, whatever the bytes hold.
pub proof fn lemma_oversize_rejected(b: Seq<u8>)
    requires
        b.len() >= PACKET_HEADER_LENGTH,
        spec_raw_len(b) > MAX_CARGO_DATA_LENGTH,
    ensures
        spec_header_len(b) == 0,
{
}

} // verus!
