//! Little-endian decoding of the fixed-width fields of ELF records.
use vstd::prelude::*;

verus! {

/// The unsigned 16-bit little-endian value stored at `off`.
pub open spec fn le16(b: Seq<u8>, off: int) -> u16 {
    (b[off] + 0x100 * b[off + 1]) as u16
}

/// The unsigned 32-bit little-endian value stored at `off`.
pub open spec fn le32(b: Seq<u8>, off: int) -> u32 {
    (le16(b, off) + 0x1_0000 * le16(b, off + 2)) as u32
}

/// The unsigned 64-bit little-endian value stored at `off`.
pub open spec fn le64(b: Seq<u8>, off: int) -> u64 {
    (le32(b, off) + 0x1_0000_0000 * le32(b, off + 4)) as u64
}

/// The two's-complement reading of a 32-bit word.
pub open spec fn signed32(u: u32) -> i32 {
    if u >= 0x8000_0000 {
        (u - 0x1_0000_0000) as i32
    } else {
        u as i32
    }
}

/// The two's-complement reading of a 64-bit word.
pub open spec fn signed64(u: u64) -> i64 {
    if u >= 0x8000_0000_0000_0000 {
        (u - 0x1_0000_0000_0000_0000) as i64
    } else {
        u as i64
    }
}

pub fn read_u8(bytes: &[u8], off: usize) -> (r: u8)
    requires
        off + 1 <= bytes@.len(),
    ensures
        r == bytes@[off as int],
{
    bytes[off]
}

pub fn read_u16(bytes: &[u8], off: usize) -> (r: u16)
    requires
        off + 2 <= bytes@.len(),
    ensures
        r == le16(bytes@, off as int),
{
    let lo = bytes[off] as u16;
    let hi = bytes[off + 1] as u16;
    lo + hi * 0x100
}

pub fn read_u32(bytes: &[u8], off: usize) -> (r: u32)
    requires
        off + 4 <= bytes@.len(),
    ensures
        r == le32(bytes@, off as int),
{
    let lo = read_u16(bytes, off) as u32;
    let _len = bytes.len();
    let hi = read_u16(bytes, off + 2) as u32;
    lo + hi * 0x1_0000
}

pub fn read_u64(bytes: &[u8], off: usize) -> (r: u64)
    requires
        off + 8 <= bytes@.len(),
    ensures
        r == le64(bytes@, off as int),
{
    let lo = read_u32(bytes, off) as u64;
    let _len = bytes.len();
    let hi = read_u32(bytes, off + 4) as u64;
    lo + hi * 0x1_0000_0000
}

pub fn read_i32(bytes: &[u8], off: usize) -> (r: i32)
    requires
        off + 4 <= bytes@.len(),
    ensures
        r == signed32(le32(bytes@, off as int)),
{
    let u = read_u32(bytes, off);
    if u >= 0x8000_0000 {
        ((u - 0x8000_0000) as i32) + i32::MIN
    } else {
        u as i32
    }
}

pub fn read_i64(bytes: &[u8], off: usize) -> (r: i64)
    requires
        off + 8 <= bytes@.len(),
    ensures
        r == signed64(le64(bytes@, off as int)),
{
    let u = read_u64(bytes, off);
    if u >= 0x8000_0000_0000_0000 {
        ((u - 0x8000_0000_0000_0000) as i64) + i64::MIN
    } else {
        u as i64
    }
}

} // verus!
