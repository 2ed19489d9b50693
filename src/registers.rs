//! Plain configuration registers of the 3D engine and the packing of the
//! derived status word.
use vstd::prelude::*;
use crate::reg::{byte_of, read_byte, with_byte, write_byte};

verus! {

/// The colour the rendering pass clears to.
pub struct ClearColor {
    bits: u32,
}

/// The depth the rendering pass clears to (16 bits).
pub struct ClearDepth {
    bits: u32,
}

/// Texture parameters of the rendering pass.
pub struct TextureParams {
    bits: u32,
}

impl View for ClearColor {
    type V = u32;

    closed spec fn view(&self) -> u32 {
        self.bits
    }
}

impl View for ClearDepth {
    type V = u32;

    closed spec fn view(&self) -> u32 {
        self.bits
    }
}

impl View for TextureParams {
    type V = u32;

    closed spec fn view(&self) -> u32 {
        self.bits
    }
}

impl ClearColor {
    pub fn new() -> (r: Self)
        ensures
            r@ == 0,
    {
        ClearColor { bits: 0 }
    }

    pub fn bits(&self) -> (r: u32)
        ensures
            r == self@,
    {
        self.bits
    }

    pub fn read(&self, byte: usize) -> (r: u8)
        requires
            byte < 4,
        ensures
            r == byte_of(self@, byte as int),
    {
        read_byte(self.bits, byte)
    }

    pub fn write(&mut self, byte: usize, value: u8)
        requires
            byte < 4,
        ensures
            final(self)@ == with_byte(old(self)@, byte as int, value),
    {
        self.bits = write_byte(self.bits, byte, value);
    }
}

impl ClearDepth {
    pub fn new() -> (r: Self)
        ensures
            r@ == 0,
    {
        ClearDepth { bits: 0 }
    }

    pub fn bits(&self) -> (r: u32)
        ensures
            r == self@,
    {
        self.bits
    }

    pub fn read(&self, byte: usize) -> (r: u8)
        requires
            byte < 2,
        ensures
            r == byte_of(self@, byte as int),
    {
        read_byte(self.bits, byte)
    }

    pub fn write(&mut self, byte: usize, value: u8)
        requires
            byte < 2,
        ensures
            final(self)@ == with_byte(old(self)@, byte as int, value),
    {
        self.bits = write_byte(self.bits, byte, value);
    }
}

impl TextureParams {
    pub fn new() -> (r: Self)
        ensures
            r@ == 0,
    {
        TextureParams { bits: 0 }
    }

    pub fn bits(&self) -> (r: u32)
        ensures
            r == self@,
    {
        self.bits
    }

    pub fn read(&self, byte: usize) -> (r: u8)
        requires
            byte < 4,
        ensures
            r == byte_of(self@, byte as int),
    {
        read_byte(self.bits, byte)
    }

    pub fn write(&mut self, byte: usize, value: u8)
        requires
            byte < 4,
        ensures
            final(self)@ == with_byte(old(self)@, byte as int, value),
    {
        self.bits = write_byte(self.bits, byte, value);
    }
}

/// Interrupt trigger modes of the status register (bits 30 and 31).
pub const IRQ_NEVER: u8 = 0;
pub const IRQ_ON_EMPTY: u8 = 1;
pub const IRQ_ON_HALF: u8 = 2;

/// Status bits 0 to 15: the position/vector stack pointer (bits 8-12), the
/// projection stack pointer (bit 13), the sticky underflow (14) and overflow
/// (15) flags. The test-result bits 0 and 1 read as zero.
pub open spec fn status_low(pos_sp: u32, proj_sp: u32, underflow: bool, overflow: bool) -> u32 {
    (pos_sp * 0x100 + proj_sp * 0x2000 + (if underflow { 0x4000u32 } else { 0u32 }) + (if overflow {
        0x8000u32
    } else {
        0u32
    })) as u32
}

/// Status bits 25 and up, shifted down by 25: primary buffer at most half
/// full (25), primary buffer empty (26), entries left to execute (27) and
/// the interrupt trigger mode (30-31).
pub open spec fn status_high(half: bool, empty: bool, busy: bool, mode: u32) -> u32 {
    ((if half { 1u32 } else { 0u32 }) + (if empty { 2u32 } else { 0u32 }) + (if busy { 4u32 } else { 0u32 })
        + mode * 32) as u32
}

/// The status word: low bits, the pending entry count in bits 16-24, high bits.
pub open spec fn status_word(low: u32, count: u32, high: u32) -> u32 {
    low | (count << 16u32) | (high << 25u32)
}

pub fn pack_status(
    pos_sp: u32,
    proj_sp: u32,
    underflow: bool,
    overflow: bool,
    count: u32,
    half: bool,
    empty: bool,
    busy: bool,
    mode: u32,
) -> (r: u32)
    requires
        pos_sp < 32,
        proj_sp < 2,
        count < 0x200,
        mode < 4,
    ensures
        r == status_word(
            status_low(pos_sp, proj_sp, underflow, overflow),
            count,
            status_high(half, empty, busy, mode),
        ),
{
    let low: u32 = pos_sp * 0x100 + proj_sp * 0x2000 + (if underflow { 0x4000u32 } else { 0u32 }) + (
    if overflow {
        0x8000u32
    } else {
        0u32
    });
    let high: u32 = (if half { 1u32 } else { 0u32 }) + (if empty { 2u32 } else { 0u32 }) + (if busy {
        4u32
    } else {
        0u32
    }) + mode * 32;
    low | (count << 16u32) | (high << 25u32)
}

/// The count field of the status word reads back the count put in.
pub proof fn lemma_status_count(low: u32, count: u32, high: u32)
    requires
        low < 0x10000,
        count < 0x200,
        high < 0x80,
    ensures
        (status_word(low, count, high) >> 16u32) & 0x1ff == count,
{
    assert(((low | (count << 16u32) | (high << 25u32)) >> 16u32) & 0x1ff == count) by (bit_vector)
        requires
            low < 0x10000,
            count < 0x200,
            high < 0x80,
    ;
}

} // verus!
