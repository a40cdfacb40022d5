//! Big-endian integers as the instruction encoding stores them.

use vstd::prelude::*;

verus! {

/// A byte read as a two's-complement number.
pub open spec fn signed8(b: u8) -> int {
    if b >= 0x80 {
        b as int - 0x100
    } else {
        b as int
    }
}

/// The unsigned 16-bit number whose high byte stands at `at`.
pub open spec fn be_u16(code: Seq<u8>, at: int) -> int {
    code[at] as int * 0x100 + code[at + 1] as int
}

/// The two's-complement 16-bit number whose high byte stands at `at`.
pub open spec fn be_i16(code: Seq<u8>, at: int) -> int {
    let v = be_u16(code, at);
    if v >= 0x8000 {
        v - 0x1_0000
    } else {
        v
    }
}

/// The unsigned 32-bit number whose highest byte stands at `at`.
pub open spec fn be_u32(code: Seq<u8>, at: int) -> int {
    be_u16(code, at) * 0x1_0000 + be_u16(code, at + 2)
}

/// The two's-complement 32-bit number whose highest byte stands at `at`.
pub open spec fn be_i32(code: Seq<u8>, at: int) -> int {
    let v = be_u32(code, at);
    if v >= 0x8000_0000 {
        v - 0x1_0000_0000
    } else {
        v
    }
}

/// Reads the byte at `at` as a signed number.
pub fn read_i8(code: &[u8], at: usize) -> (v: i8)
    requires
        at < code.len(),
    ensures
        v == signed8(code@[at as int]),
{
    let b: u8 = code[at];
    if b >= 0x80 {
        (b as i16 - 0x100) as i8
    } else {
        b as i8
    }
}

/// Reads two bytes at `at` as an unsigned number, high byte first.
pub fn read_u16(code: &[u8], at: usize) -> (v: u16)
    requires
        at + 2 <= code.len(),
    ensures
        v == be_u16(code@, at as int),
{
    let hi: u16 = code[at] as u16;
    let lo: u16 = code[at + 1] as u16;
    hi * 0x100 + lo
}

/// Reads two bytes at `at` as a signed number, high byte first.
pub fn read_i16(code: &[u8], at: usize) -> (v: i16)
    requires
        at + 2 <= code.len(),
    ensures
        v == be_i16(code@, at as int),
{
    let u: u16 = read_u16(code, at);
    if u >= 0x8000 {
        (u as i32 - 0x1_0000) as i16
    } else {
        u as i16
    }
}

/// Reads four bytes at `at` as a signed number, highest byte first.
pub fn read_i32(code: &[u8], at: usize) -> (v: i32)
    requires
        at + 4 <= code.len(),
    ensures
        v == be_i32(code@, at as int),
{
    let hi: i64 = read_u16(code, at) as i64;
    let lo: i64 = read_u16(code, at + 2) as i64;
    let u: i64 = hi * 0x1_0000 + lo;
    if u >= 0x8000_0000 {
        (u - 0x1_0000_0000) as i32
    } else {
        u as i32
    }
}

/// Every reading lies in the range of the machine integer of its width.
pub proof fn lemma_be_ranges(code: Seq<u8>, at: int)
    ensures
        -0x8000_0000 <= be_i32(code, at) < 0x8000_0000,
        -0x8000 <= be_i16(code, at) < 0x8000,
        0 <= be_u16(code, at) < 0x1_0000,
{
}

} // verus!
