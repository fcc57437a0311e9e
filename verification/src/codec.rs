//! Fixed-width integer decoding from byte buffers.

use byteorder::{BigEndian, ByteOrder, LittleEndian};
use vstd::prelude::*;

verus! {

/// The value of a big-endian two's-complement 16-bit integer with bytes `hi`, `lo`.
pub open spec fn be_i16(hi: u8, lo: u8) -> int {
    if hi < 128 {
        hi * 256 + lo
    } else {
        hi * 256 + lo - 65536
    }
}

/// The value of a little-endian unsigned 32-bit integer with bytes `b0` (least significant)
/// through `b3`.
pub open spec fn le_u32(b0: u8, b1: u8, b2: u8, b3: u8) -> int {
    b0 + 256 * b1 + 65536 * b2 + 16777216 * b3
}

/// Reads the big-endian `i16` stored at `buf[at..at + 2]`.
///
/// Calls `byteorder::BigEndian::read_i16` on the slice starting at `at`. Trusted claim: the
/// result is the two's-complement value of the two bytes taken most significant first (the
/// crate reads them with `u16::from_be_bytes` and reinterprets the bits as `i16`).
#[verifier::external_body]
pub(crate) fn read_i16_be(buf: &[u8], at: usize) -> (v: i16)
    requires
        at + 2 <= buf@.len(),
    ensures
        v as int == be_i16(buf@[at as int], buf@[at + 1]),
{
    BigEndian::read_i16(&buf[at..])
}

/// Reads the little-endian `u32` stored at `buf[at..at + 4]`.
///
/// Calls `byteorder::LittleEndian::read_u32` on the slice starting at `at`. Trusted claim: the
/// result is the unsigned value of the four bytes taken least significant first (the crate
/// reads them with `u32::from_le_bytes`).
#[verifier::external_body]
pub(crate) fn read_u32_le(buf: &[u8], at: usize) -> (v: u32)
    requires
        at + 4 <= buf@.len(),
    ensures
        v as int == le_u32(buf@[at as int], buf@[at + 1], buf@[at + 2], buf@[at + 3]),
{
    LittleEndian::read_u32(&buf[at..])
}

/// Decodes a big-endian two's-complement `i16` from its two bytes.
pub fn i16_from_be_bytes(hi: u8, lo: u8) -> (v: i16)
    ensures
        v as int == be_i16(hi, lo),
{
    let unsigned: u32 = (hi as u32) * 256 + (lo as u32);
    if hi < 128 {
        unsigned as i16
    } else {
        let signed: i32 = (unsigned as i32) - 65536;
        signed as i16
    }
}

} // verus!
