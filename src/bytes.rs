//! Little-endian integer fields inside byte buffers.
use byteorder::{ByteOrder, LittleEndian};
use vstd::prelude::*;

verus! {

/// The unsigned 16-bit integer stored least significant byte first at `off`.
pub open spec fn le_u16(b: Seq<u8>, off: int) -> u16 {
    (b[off] as int + b[off + 1] as int * 0x100) as u16
}

/// The unsigned 32-bit integer stored least significant byte first at `off`.
pub open spec fn le_u32(b: Seq<u8>, off: int) -> u32 {
    (b[off] as int + b[off + 1] as int * 0x100 + b[off + 2] as int * 0x1_0000 + b[off + 3] as int
        * 0x100_0000) as u32
}

/// Relies on byteorder's `LittleEndian::read_u16`, which decodes the first two bytes
/// of the slice it is given, least significant first (it panics on fewer).
#[verifier::external_body]
pub(crate) fn read_u16_le(buf: &[u8], off: usize) -> (r: u16)
    requires
        off + 2 <= buf@.len(),
    ensures
        r == le_u16(buf@, off as int),
{
    LittleEndian::read_u16(&buf[off..])
}

/// Relies on byteorder's `LittleEndian::read_u32`, which decodes the first four bytes
/// of the slice it is given, least significant first (it panics on fewer).
#[verifier::external_body]
pub(crate) fn read_u32_le(buf: &[u8], off: usize) -> (r: u32)
    requires
        off + 4 <= buf@.len(),
    ensures
        r == le_u32(buf@, off as int),
{
    LittleEndian::read_u32(&buf[off..])
}

} // verus!
