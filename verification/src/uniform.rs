//! The per-frame uniform value and its wire layout.
//!
//! The value uploaded to the GPU once per frame holds the elapsed time and
//! the surface aspect ratio, each a 32-bit IEEE-754 float on the wire. The
//! library works on the bit patterns alone; turning a float into its bits
//! and back is the caller's concern. The wire image is the two fields in
//! order, each little-endian, eight bytes in all with no padding: this must
//! match the shading program's uniform block layout exactly.

use vstd::prelude::*;

verus! {

/// Number of bytes in the wire image of a `FrameUniformState`.
pub const WIRE_SIZE: usize = 8;

/// The per-frame uniform value: elapsed time and aspect ratio, each held
/// as the bit pattern of a 32-bit IEEE-754 float.
#[derive(Clone, Copy, PartialEq, Eq, Structural, Debug)]
pub struct FrameUniformState {
    /// Bit pattern of the elapsed-time float (byte 0-3 on the wire).
    pub time_bits: u32,
    /// Bit pattern of the width/height aspect-ratio float (byte 4-7 on the wire).
    pub aspect_bits: u32,
}

/// The four little-endian bytes of a 32-bit value.
pub open spec fn le_bytes_of(x: u32) -> Seq<u8> {
    seq![
        (x & 0xff) as u8,
        ((x >> 8) & 0xff) as u8,
        ((x >> 16) & 0xff) as u8,
        ((x >> 24) & 0xff) as u8,
    ]
}

/// The 32-bit value whose little-endian bytes are `b0`, `b1`, `b2`, `b3`.
pub open spec fn u32_of_le(b0: u8, b1: u8, b2: u8, b3: u8) -> u32 {
    (b0 as u32) | ((b1 as u32) << 8) | ((b2 as u32) << 16) | ((b3 as u32) << 24)
}

/// Reassembling a value from its own little-endian bytes gives it back.
pub proof fn lemma_le_round_trip(x: u32)
    by (bit_vector)
    ensures
        u32_of_le(
            (x & 0xff) as u8,
            ((x >> 8) & 0xff) as u8,
            ((x >> 16) & 0xff) as u8,
            ((x >> 24) & 0xff) as u8,
        ) == x,
{
}

/// What decoding a byte sequence by the declared layout yields: a value
/// exactly when the length is right, and nothing otherwise.
pub open spec fn decoded(bytes: Seq<u8>) -> Option<FrameUniformState> {
    if bytes.len() == WIRE_SIZE {
        Some(FrameUniformState {
            time_bits: u32_of_le(bytes[0], bytes[1], bytes[2], bytes[3]),
            aspect_bits: u32_of_le(bytes[4], bytes[5], bytes[6], bytes[7]),
        })
    } else {
        None
    }
}

impl FrameUniformState {
    /// The wire image: time then aspect, each little-endian, no padding.
    pub open spec fn wire_bytes(self) -> Seq<u8> {
        le_bytes_of(self.time_bits) + le_bytes_of(self.aspect_bits)
    }

    /// Serializes the value to its exact wire layout, ready to be written
    /// into the uniform buffer at offset 0.
    pub fn to_wgsl_bytes(&self) -> (r: Vec<u8>)
        ensures
            r@ == self.wire_bytes(),
            r@.len() == WIRE_SIZE,
    {
        let mut out: Vec<u8> = Vec::new();
        push_le_bytes(&mut out, self.time_bits);
        push_le_bytes(&mut out, self.aspect_bits);
        proof {
            assert(out@ =~= self.wire_bytes());
        }
        out
    }

    /// Reads a value back from its wire image; yields nothing when the
    /// length is not exactly the wire size.
    pub fn from_wgsl_bytes(bytes: &Vec<u8>) -> (r: Option<FrameUniformState>)
        ensures
            r == decoded(bytes@),
    {
        if bytes.len() != WIRE_SIZE {
            return None;
        }
        let time_bits = combine_le(bytes[0], bytes[1], bytes[2], bytes[3]);
        let aspect_bits = combine_le(bytes[4], bytes[5], bytes[6], bytes[7]);
        Some(FrameUniformState { time_bits, aspect_bits })
    }
}

/// Appends the four little-endian bytes of `x`.
fn push_le_bytes(out: &mut Vec<u8>, x: u32)
    ensures
        final(out)@ == old(out)@ + le_bytes_of(x),
{
    proof {
        assert(x & 0xff < 256 && (x >> 8) & 0xff < 256 && (x >> 16) & 0xff < 256
            && (x >> 24) & 0xff < 256) by (bit_vector);
    }
    out.push((x & 0xff) as u8);
    out.push(((x >> 8) & 0xff) as u8);
    out.push(((x >> 16) & 0xff) as u8);
    out.push(((x >> 24) & 0xff) as u8);
    proof {
        assert(out@ =~= old(out)@ + le_bytes_of(x));
    }
}

/// Reassembles a 32-bit value from its four little-endian bytes.
fn combine_le(b0: u8, b1: u8, b2: u8, b3: u8) -> (r: u32)
    ensures
        r == u32_of_le(b0, b1, b2, b3),
{
    (b0 as u32) | ((b1 as u32) << 8) | ((b2 as u32) << 16) | ((b3 as u32) << 24)
}

/// Law: the wire layout loses nothing. Decoding the wire image of any
/// uniform value by the declared byte layout yields that same value.
pub proof fn lemma_wire_round_trip(s: FrameUniformState)
    ensures
        decoded(s.wire_bytes()) == Some(s),
{
    let bytes = s.wire_bytes();
    assert(bytes.len() == WIRE_SIZE);
    assert(bytes[0] == (s.time_bits & 0xff) as u8);
    assert(bytes[1] == ((s.time_bits >> 8) & 0xff) as u8);
    assert(bytes[2] == ((s.time_bits >> 16) & 0xff) as u8);
    assert(bytes[3] == ((s.time_bits >> 24) & 0xff) as u8);
    assert(bytes[4] == (s.aspect_bits & 0xff) as u8);
    assert(bytes[5] == ((s.aspect_bits >> 8) & 0xff) as u8);
    assert(bytes[6] == ((s.aspect_bits >> 16) & 0xff) as u8);
    assert(bytes[7] == ((s.aspect_bits >> 24) & 0xff) as u8);
    lemma_le_round_trip(s.time_bits);
    lemma_le_round_trip(s.aspect_bits);
}

} // verus!
