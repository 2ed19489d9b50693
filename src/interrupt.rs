//! The interrupt controller: enable, master-enable and request registers,
//! and the predicate that the processor polls.
use vstd::prelude::*;
use crate::reg::{
    byte_of, clear_on_write, clear_byte_bits, read_byte, with_byte_masked, write_byte_masked,
};

verus! {

pub const VBLANK: u32 = 1 << 0;
pub const HBLANK: u32 = 1 << 1;
pub const VCOUNTER_MATCH: u32 = 1 << 2;
pub const TIMER0_OVERFLOW: u32 = 1 << 3;
pub const TIMER1_OVERFLOW: u32 = 1 << 4;
pub const TIMER2_OVERFLOW: u32 = 1 << 5;
pub const TIMER3_OVERFLOW: u32 = 1 << 6;
pub const SERIAL: u32 = 1 << 7;
pub const DMA0: u32 = 1 << 8;
pub const DMA1: u32 = 1 << 9;
pub const DMA2: u32 = 1 << 10;
pub const DMA3: u32 = 1 << 11;
pub const KEYPAD: u32 = 1 << 12;
pub const GAME_PAK: u32 = 1 << 13;
/// Every named interrupt source.
pub const ALL_SOURCES: u32 = 0x3fff;
/// The one meaningful bit of the master enable register.
pub const MASTER_ENABLE: u32 = 1 << 0;

/// Which interrupt sources may interrupt the processor.
pub struct InterruptEnable {
    bits: u32,
}

/// The global interrupt switch.
pub struct InterruptMasterEnable {
    bits: u32,
}

/// Which interrupt sources are pending.
pub struct InterruptRequest {
    bits: u32,
}

impl View for InterruptEnable {
    type V = u32;

    closed spec fn view(&self) -> u32 {
        self.bits
    }
}

impl View for InterruptMasterEnable {
    type V = u32;

    closed spec fn view(&self) -> u32 {
        self.bits
    }
}

impl View for InterruptRequest {
    type V = u32;

    closed spec fn view(&self) -> u32 {
        self.bits
    }
}

impl InterruptEnable {
    pub fn empty() -> (r: Self)
        ensures
            r@ == 0,
    {
        InterruptEnable { bits: 0 }
    }

    /// The register holding `bits`, with the undefined bits dropped.
    pub fn from_bits_truncate(bits: u32) -> (r: Self)
        ensures
            r@ == bits & ALL_SOURCES,
    {
        InterruptEnable { bits: bits & ALL_SOURCES }
    }

    pub fn bits(&self) -> (r: u32)
        ensures
            r == self@,
    {
        self.bits
    }

    pub fn read(&self, byte: usize) -> (r: u8)
        requires
            byte < 4,
        ensures
            r == byte_of(self@, byte as int),
    {
        read_byte(self.bits, byte)
    }

    /// Overwrites one byte; bits outside the named sources stay clear.
    pub fn write(&mut self, byte: usize, value: u8)
        requires
            byte < 4,
        ensures
            final(self)@ == with_byte_masked(old(self)@, byte as int, value, ALL_SOURCES),
    {
        self.bits = write_byte_masked(self.bits, byte, value, ALL_SOURCES);
    }
}

impl InterruptMasterEnable {
    pub fn empty() -> (r: Self)
        ensures
            r@ == 0,
    {
        InterruptMasterEnable { bits: 0 }
    }

    /// The register holding `bits`, with the undefined bits dropped.
    pub fn from_bits_truncate(bits: u32) -> (r: Self)
        ensures
            r@ == bits & MASTER_ENABLE,
    {
        InterruptMasterEnable { bits: bits & MASTER_ENABLE }
    }

    pub fn bits(&self) -> (r: u32)
        ensures
            r == self@,
    {
        self.bits
    }

    pub fn read(&self, byte: usize) -> (r: u8)
        requires
            byte < 4,
        ensures
            r == byte_of(self@, byte as int),
    {
        read_byte(self.bits, byte)
    }

    /// Overwrites one byte; only the enable bit is kept.
    pub fn write(&mut self, byte: usize, value: u8)
        requires
            byte < 4,
        ensures
            final(self)@ == with_byte_masked(old(self)@, byte as int, value, MASTER_ENABLE),
    {
        self.bits = write_byte_masked(self.bits, byte, value, MASTER_ENABLE);
    }
}

impl InterruptRequest {
    pub fn empty() -> (r: Self)
        ensures
            r@ == 0,
    {
        InterruptRequest { bits: 0 }
    }

    /// The register holding `bits`, with the undefined bits dropped.
    pub fn from_bits_truncate(bits: u32) -> (r: Self)
        ensures
            r@ == bits & ALL_SOURCES,
    {
        InterruptRequest { bits: bits & ALL_SOURCES }
    }

    pub fn bits(&self) -> (r: u32)
        ensures
            r == self@,
    {
        self.bits
    }

    /// Raises the requests of `sources` (named sources only), keeping the others.
    pub fn insert(&mut self, sources: u32)
        ensures
            final(self)@ == old(self)@ | (sources & ALL_SOURCES),
    {
        self.bits = self.bits | (sources & ALL_SOURCES);
    }

    pub fn read(&self, byte: usize) -> (r: u8)
        requires
            byte < 4,
        ensures
            r == byte_of(self@, byte as int),
    {
        read_byte(self.bits, byte)
    }

    /// Acknowledges requests: each bit set in the written byte clears that
    /// request; a clear bit leaves it as it was.
    pub fn write(&mut self, byte: usize, value: u8)
        requires
            byte < 4,
        ensures
            final(self)@ == clear_on_write(old(self)@, byte as int, value, ALL_SOURCES),
    {
        self.bits = clear_byte_bits(self.bits, byte, value, ALL_SOURCES);
    }
}

/// Whether the processor is to take an interrupt, given the three registers.
pub open spec fn requested(master: u32, enable: u32, request: u32) -> bool {
    master != 0 && (request & enable) != 0
}

pub struct InterruptController {
    pub enable: InterruptEnable,
    pub master_enable: InterruptMasterEnable,
    pub request: InterruptRequest,
}

impl InterruptController {
    pub fn new() -> (r: InterruptController)
        ensures
            r.enable@ == 0,
            r.master_enable@ == 0,
            r.request@ == 0,
    {
        InterruptController {
            enable: InterruptEnable::empty(),
            master_enable: InterruptMasterEnable::empty(),
            request: InterruptRequest::empty(),
        }
    }

    pub fn interrupts_requested(&self) -> (r: bool)
        ensures
            r == requested(self.master_enable@, self.enable@, self.request@),
    {
        self.master_enable.bits() != 0 && (self.request.bits() & self.enable.bits()) != 0
    }
}

} // verus!
