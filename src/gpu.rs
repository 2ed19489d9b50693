//! The graphics unit as the emulation loop sees it: the 3D engine and the
//! dot clock whose blanking periods raise interrupts.
use vstd::prelude::*;
use crate::engine3d::{Engine3D, HEIGHT, WIDTH};
use crate::interrupt::{InterruptRequest, ALL_SOURCES, HBLANK, VBLANK};

verus! {

pub const DOTS_PER_LINE: u32 = 355;
pub const LINES_PER_FRAME: u32 = 263;

/// The dot and line that follow `(dot, line)`; a position past the end of
/// a line or frame wraps like the last one.
pub open spec fn next_position(dot: u32, line: u32) -> (u32, u32) {
    if dot < DOTS_PER_LINE - 1 {
        ((dot + 1) as u32, line)
    } else if line < LINES_PER_FRAME - 1 {
        (0, (line + 1) as u32)
    } else {
        (0, 0)
    }
}

/// The interrupt sources raised on reaching `(dot, line)`: horizontal
/// blanking where a line's visible dots end, vertical blanking where the
/// visible lines end.
pub open spec fn raised_at(dot: u32, line: u32) -> u32 {
    if dot == WIDTH {
        HBLANK
    } else if dot == 0 && line == HEIGHT {
        VBLANK
    } else {
        0
    }
}

pub struct GPU {
    pub engine3d: Engine3D,
    /// The dot within the line, below `DOTS_PER_LINE`.
    pub dot: u32,
    /// The line within the frame, below `LINES_PER_FRAME`.
    pub line: u32,
}

impl GPU {
    pub fn new() -> (r: GPU)
        ensures
            r.engine3d@.wf(),
            r.dot == 0,
            r.line == 0,
            r.engine3d@.queue.pending().len() == 0,
    {
        GPU { engine3d: Engine3D::new(), dot: 0, line: 0 }
    }

    /// Advances one dot and returns the interrupt requests that it raises.
    pub fn emulate_dot(&mut self) -> (r: InterruptRequest)
        ensures
            (final(self).dot, final(self).line) == next_position(
                old(self).dot,
                old(self).line,
            ),
            final(self).engine3d == old(self).engine3d,
            r@ == raised_at(final(self).dot, final(self).line),
    {
        if self.dot < DOTS_PER_LINE - 1 {
            self.dot = self.dot + 1;
        } else {
            self.dot = 0;
            self.line = if self.line < LINES_PER_FRAME - 1 { self.line + 1 } else { 0 };
        }
        let bits: u32 = if self.dot == WIDTH as u32 {
            HBLANK
        } else if self.dot == 0 && self.line == HEIGHT as u32 {
            VBLANK
        } else {
            0
        };
        assert(HBLANK & ALL_SOURCES == HBLANK) by (bit_vector);
        assert(VBLANK & ALL_SOURCES == VBLANK) by (bit_vector);
        assert(0u32 & ALL_SOURCES == 0u32) by (bit_vector);
        InterruptRequest::from_bits_truncate(bits)
    }
}

} // verus!
