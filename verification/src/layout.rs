//! Reading the fields of foreign records: little-endian integers at fixed offsets.

use vstd::prelude::*;

verus! {

/// The unsigned 16-bit integer that `s` holds at `at`, low byte first.
pub open spec fn le_u16(s: Seq<u8>, at: int) -> int {
    s[at] as int + 0x100 * (s[at + 1] as int)
}

/// The unsigned 32-bit integer that `s` holds at `at`, low byte first.
pub open spec fn le_u32(s: Seq<u8>, at: int) -> int {
    s[at] as int + 0x100 * (s[at + 1] as int) + 0x1_0000 * (s[at + 2] as int) + 0x100_0000 * (s[at
        + 3] as int)
}

/// The unsigned 64-bit integer that `s` holds at `at`, low byte first.
pub open spec fn le_u64(s: Seq<u8>, at: int) -> int {
    le_u32(s, at) + 0x1_0000_0000 * le_u32(s, at + 4)
}

/// The signed reading of a byte in two's complement.
pub open spec fn signed8(b: int) -> int {
    if b < 0x80 {
        b
    } else {
        b - 0x100
    }
}

/// The signed reading of a 32-bit word in two's complement.
pub open spec fn signed32(w: int) -> int {
    if w < 0x8000_0000 {
        w
    } else {
        w - 0x1_0000_0000
    }
}

/// The signed 32-bit integer that `s` holds at `at`, low byte first.
pub open spec fn le_i32(s: Seq<u8>, at: int) -> int {
    signed32(le_u32(s, at))
}

/// The byte at `at`, read as a signed integer.
pub fn read_i8(buf: &[u8], at: usize) -> (r: i8)
    requires
        at < buf@.len(),
    ensures
        r == signed8(buf@[at as int] as int),
{
    let b = buf[at];
    if b < 0x80 {
        b as i8
    } else {
        ((b - 0x80) as i8) + i8::MIN
    }
}

/// The unsigned 16-bit integer at `at`.
pub fn read_u16(buf: &[u8], at: usize) -> (r: u16)
    requires
        at + 2 <= buf@.len(),
    ensures
        r == le_u16(buf@, at as int),
{
    let b0 = buf[at] as u16;
    let b1 = buf[at + 1] as u16;
    b0 + b1 * 0x100
}

/// The unsigned 32-bit integer at `at`.
pub fn read_u32(buf: &[u8], at: usize) -> (r: u32)
    requires
        at + 4 <= buf@.len(),
    ensures
        r == le_u32(buf@, at as int),
{
    let b0 = buf[at] as u32;
    let b1 = buf[at + 1] as u32;
    let b2 = buf[at + 2] as u32;
    let b3 = buf[at + 3] as u32;
    b0 + b1 * 0x100 + b2 * 0x1_0000 + b3 * 0x100_0000
}

/// A 32-bit word read as a signed integer: the same bits.
pub fn to_signed(w: u32) -> (r: i32)
    ensures
        r == signed32(w as int),
{
    if w < 0x8000_0000 {
        w as i32
    } else {
        ((w - 0x8000_0000) as i32) + i32::MIN
    }
}

/// The signed 32-bit integer at `at`.
pub fn read_i32(buf: &[u8], at: usize) -> (r: i32)
    requires
        at + 4 <= buf@.len(),
    ensures
        r == le_i32(buf@, at as int),
{
    to_signed(read_u32(buf, at))
}

/// The unsigned 64-bit integer at `at`.
pub fn read_u64(buf: &[u8], at: usize) -> (r: u64)
    requires
        at + 8 <= buf@.len(),
    ensures
        r == le_u64(buf@, at as int),
{
    let end: usize = buf.len();
    assert(at + 8 <= end);
    let lo = read_u32(buf, at) as u64;
    let hi = read_u32(buf, at + 4) as u64;
    lo + hi * 0x1_0000_0000
}

/// Copies the `len` bytes of `buf` that start at `at`.
pub fn read_bytes(buf: &[u8], at: usize, len: usize) -> (v: Vec<u8>)
    requires
        at + len <= buf@.len(),
    ensures
        v@ == buf@.subrange(at as int, at + len),
{
    let end: usize = buf.len();
    let mut v: Vec<u8> = Vec::new();
    let mut i: usize = 0;
    while i < len
        invariant
            i <= len,
            at + len <= end,
            end == buf@.len(),
            v@ == buf@.subrange(at as int, at + i),
        decreases len - i,
    {
        v.push(buf[at + i]);
        i += 1;
        assert(v@ =~= buf@.subrange(at as int, at + i));
    }
    v
}

} // verus!
