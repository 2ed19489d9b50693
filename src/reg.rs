//! Byte-addressable views of little-endian 32-bit registers.
use vstd::prelude::*;

verus! {

/// Bit offset of byte `i` of a little-endian 32-bit value.
pub open spec fn byte_shift(i: int) -> u32 {
    (8 * i) as u32
}

/// Byte `i` (0 is least significant) of `x`.
pub open spec fn byte_of(x: u32, i: int) -> u8 {
    (x >> byte_shift(i)) as u8
}

/// The eight bits that byte `i` occupies.
pub open spec fn byte_mask(i: int) -> u32 {
    0xffu32 << byte_shift(i)
}

/// `x` with byte `i` replaced by `b`, the other 24 bits kept.
pub open spec fn with_byte(x: u32, i: int, b: u8) -> u32 {
    (x & !byte_mask(i)) | ((b as u32) << byte_shift(i))
}

/// `x` with byte `i` replaced by `b` restricted to `mask`.
pub open spec fn with_byte_masked(x: u32, i: int, b: u8, mask: u32) -> u32 {
    (x & !byte_mask(i)) | (((b as u32) << byte_shift(i)) & mask)
}

/// `x` with the bits set in byte `i` of the written value (within `mask`) cleared.
pub open spec fn clear_on_write(x: u32, i: int, b: u8, mask: u32) -> u32 {
    x & !(((b as u32) << byte_shift(i)) & mask)
}

fn shift_of(i: usize) -> (s: u32)
    requires
        i < 4,
    ensures
        s == byte_shift(i as int),
        s == 0 || s == 8 || s == 16 || s == 24,
{
    (i as u32) * 8
}

/// Reads byte `i` of `x`.
pub fn read_byte(x: u32, i: usize) -> (r: u8)
    requires
        i < 4,
    ensures
        r == byte_of(x, i as int),
{
    let s = shift_of(i);
    (x >> s) as u8
}

/// Replaces byte `i` of `x` by `b`.
pub fn write_byte(x: u32, i: usize, b: u8) -> (r: u32)
    requires
        i < 4,
    ensures
        r == with_byte(x, i as int, b),
{
    let s = shift_of(i);
    (x & !(0xffu32 << s)) | ((b as u32) << s)
}

/// Replaces byte `i` of `x` by `b`, keeping only the bits of the written byte inside `mask`.
pub fn write_byte_masked(x: u32, i: usize, b: u8, mask: u32) -> (r: u32)
    requires
        i < 4,
    ensures
        r == with_byte_masked(x, i as int, b, mask),
{
    let s = shift_of(i);
    (x & !(0xffu32 << s)) | (((b as u32) << s) & mask)
}

/// Clears the bits of `x` that the written byte sets (write-1-to-clear).
pub fn clear_byte_bits(x: u32, i: usize, b: u8, mask: u32) -> (r: u32)
    requires
        i < 4,
    ensures
        r == clear_on_write(x, i as int, b, mask),
{
    let s = shift_of(i);
    x & !(((b as u32) << s) & mask)
}

/// A byte write changes the written byte to the written value and no other byte.
pub proof fn lemma_with_byte(x: u32, i: int, b: u8, j: int)
    requires
        0 <= i < 4,
        0 <= j < 4,
    ensures
        byte_of(with_byte(x, i, b), i) == b,
        j != i ==> byte_of(with_byte(x, i, b), j) == byte_of(x, j),
{
    let s = byte_shift(i);
    let t = byte_shift(j);
    assert(s == 0 || s == 8 || s == 16 || s == 24);
    assert(t == 0 || t == 8 || t == 16 || t == 24);
    assert(((((x & !(0xffu32 << s)) | ((b as u32) << s)) >> s) as u8) == b) by (bit_vector)
        requires
            s == 0 || s == 8 || s == 16 || s == 24,
    ;
    assert(t != s ==> ((((x & !(0xffu32 << s)) | ((b as u32) << s)) >> t) as u8) == ((x >> t) as u8))
        by (bit_vector)
        requires
            s == 0 || s == 8 || s == 16 || s == 24,
            t == 0 || t == 8 || t == 16 || t == 24,
    ;
}

/// Writing byte 2 alone sets bits 16 to 23 to the written value and leaves
/// bits 0 to 15 and 24 to 31 as they were.
pub proof fn lemma_write_byte_two(x: u32, b: u8)
    ensures
        (with_byte(x, 2, b) >> 16u32) & 0xff == b as u32,
        with_byte(x, 2, b) & 0xff00_ffff == x & 0xff00_ffff,
{
    assert(byte_shift(2) == 16);
    assert((((x & !(0xffu32 << 16u32)) | ((b as u32) << 16u32)) >> 16u32) & 0xff == b as u32)
        by (bit_vector);
    assert(((x & !(0xffu32 << 16u32)) | ((b as u32) << 16u32)) & 0xff00_ffff == x & 0xff00_ffff)
        by (bit_vector);
}

/// The value left by writing bytes `b0` to `b3` in turn to indices 0 to 3.
pub open spec fn four_writes(x: u32, b0: u8, b1: u8, b2: u8, b3: u8) -> u32 {
    with_byte(with_byte(with_byte(with_byte(x, 0, b0), 1, b1), 2, b2), 3, b3)
}

/// Writing four bytes in turn to a register, whatever it held, and reading
/// them back gives the bytes written.
pub proof fn lemma_four_writes_read_back(x: u32, b0: u8, b1: u8, b2: u8, b3: u8)
    ensures
        byte_of(four_writes(x, b0, b1, b2, b3), 0) == b0,
        byte_of(four_writes(x, b0, b1, b2, b3), 1) == b1,
        byte_of(four_writes(x, b0, b1, b2, b3), 2) == b2,
        byte_of(four_writes(x, b0, b1, b2, b3), 3) == b3,
{
    let w0 = with_byte(x, 0, b0);
    let w1 = with_byte(w0, 1, b1);
    let w2 = with_byte(w1, 2, b2);
    let w3 = with_byte(w2, 3, b3);
    lemma_with_byte(x, 0, b0, 1);
    lemma_with_byte(w0, 1, b1, 0);
    lemma_with_byte(w1, 2, b2, 0);
    lemma_with_byte(w1, 2, b2, 1);
    lemma_with_byte(w2, 3, b3, 0);
    lemma_with_byte(w2, 3, b3, 1);
    lemma_with_byte(w2, 3, b3, 2);
    lemma_with_byte(w2, 3, b3, 3);
}

} // verus!
