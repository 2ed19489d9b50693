//! The 3D engine: its registers, the geometry queue, the matrix engine and
//! the status register that reports on them and triggers the FIFO interrupt.
use vstd::prelude::*;
use crate::geometry::{
    command_effect, execute, queue_dequeue, queue_enqueue, GeometryCommandEntry, GeometryQueue,
    QueueModel, FIFO_LEN, PIPE_LEN,
};
use crate::matrix_engine::{is_reset, EngineModel, MatrixEngine};
use crate::reg::{byte_of, read_byte, with_byte};
use crate::registers::{
    lemma_status_count, pack_status, status_high, status_low, status_word, ClearColor, ClearDepth,
    TextureParams, IRQ_ON_EMPTY, IRQ_ON_HALF,
};
use crate::scheduler::{token_after, Event, ScheduledEvent, Scheduler, SchedulerModel};

verus! {

pub const WIDTH: usize = 256;
pub const HEIGHT: usize = 192;
/// The I/O page that holds the engine's registers (address bits 12 and up).
pub const IO_PAGE: u32 = 0x04000;
/// Ticks between the FIFO interrupt condition arising and its delivery.
pub const FIFO_IRQ_DELAY: u64 = 1;

/// Whether the FIFO interrupt condition of `mode` holds with `fifo_len`
/// entries in the primary buffer.
pub open spec fn irq_condition(mode: u8, fifo_len: nat) -> bool {
    ||| mode == IRQ_ON_EMPTY && fifo_len == 0
    ||| mode == IRQ_ON_HALF && fifo_len <= FIFO_LEN / 2
}

pub struct Engine3DModel {
    pub queue: QueueModel,
    pub matrices: EngineModel,
    pub clear_color: u32,
    pub clear_depth: u32,
    pub tex_params: u32,
    /// The interrupt trigger mode, 0 to 3.
    pub irq_mode: u8,
    /// Whether the interrupt condition held after the last change.
    pub irq_active: bool,
    /// The token of the last interrupt delivery asked for, while the condition holds.
    pub irq_token: Option<u64>,
    pub pixels: Seq<u16>,
    pub rendering: bool,
}

impl Engine3DModel {
    pub open spec fn wf(self) -> bool {
        &&& self.queue.wf()
        &&& self.matrices.wf()
        &&& self.irq_mode < 4
        &&& self.pixels.len() == WIDTH * HEIGHT
        &&& self.irq_active == irq_condition(self.irq_mode, self.queue.fifo.len())
    }
}

/// The status register as read.
pub open spec fn gxstat_of(s: Engine3DModel) -> u32 {
    status_word(
        status_low(
            s.matrices.pos.sp as u32,
            s.matrices.proj.sp as u32,
            s.matrices.underflow,
            s.matrices.overflow,
        ),
        s.queue.pending().len() as u32,
        status_high(
            s.queue.fifo.len() <= FIFO_LEN / 2,
            s.queue.fifo.len() == 0,
            s.queue.pending().len() > 0,
            s.irq_mode as u32,
        ),
    )
}

/// What a byte write at `addr` does to the registers, before the interrupt
/// condition is looked at again. Writes to the status register clear the
/// overflow flag (bit 15) and the underflow flag (bit 14) where they hold a
/// 1 and set the trigger mode (bits 30-31); their other bits are ignored.
pub open spec fn write_effect(s: Engine3DModel, addr: u32, value: u8) -> Engine3DModel {
    let off = addr % 0x1000;
    if 0x350 <= off <= 0x353 {
        Engine3DModel { clear_color: with_byte(s.clear_color, (addr % 4) as int, value), ..s }
    } else if 0x354 <= off <= 0x355 {
        Engine3DModel { clear_depth: with_byte(s.clear_depth, (addr % 2) as int, value), ..s }
    } else if off == 0x601 {
        Engine3DModel {
            matrices: EngineModel {
                overflow: s.matrices.overflow && value < 0x80,
                underflow: s.matrices.underflow && (value / 0x40) % 2 == 0,
                ..s.matrices
            },
            ..s
        }
    } else if off == 0x603 {
        Engine3DModel { irq_mode: value / 0x40, ..s }
    } else {
        s
    }
}

/// `t` with the interrupt condition looked at again and `token` as the
/// pending delivery.
pub open spec fn settled(t: Engine3DModel, token: Option<u64>) -> Engine3DModel {
    Engine3DModel { irq_active: irq_condition(t.irq_mode, t.queue.fifo.len()), irq_token: token, ..t }
}

/// What the scheduler is asked when the interrupt condition goes from
/// `was` to `now`: a delivery when it arises, a cancellation of the pending
/// one when it goes away, nothing otherwise.
pub open spec fn bridge_requests(
    was: bool,
    token: Option<u64>,
    now: bool,
    before: SchedulerModel,
    after: SchedulerModel,
    new_token: Option<u64>,
) -> bool {
    if now && !was {
        &&& after.scheduled == before.scheduled.push(
            ScheduledEvent {
                token: before.next_token,
                delay: FIFO_IRQ_DELAY,
                event: Event::GeometryFifoInterrupt,
            },
        )
        &&& after.cancelled == before.cancelled
        &&& after.next_token == token_after(before.next_token)
        &&& new_token == Some(before.next_token)
    } else if !now && was {
        &&& after.scheduled == before.scheduled
        &&& after.cancelled == match token {
            Some(t) => before.cancelled.push(t),
            None => before.cancelled,
        }
        &&& after.next_token == before.next_token
        &&& new_token is None
    } else {
        after == before && new_token == token
    }
}

pub struct Engine3D {
    queue: GeometryQueue,
    matrices: MatrixEngine,
    clear_color: ClearColor,
    clear_depth: ClearDepth,
    tex_params: TextureParams,
    irq_mode: u8,
    irq_active: bool,
    irq_token: Option<u64>,
    pixels: Vec<u16>,
    rendering: bool,
}

impl View for Engine3D {
    type V = Engine3DModel;

    closed spec fn view(&self) -> Engine3DModel {
        Engine3DModel {
            queue: self.queue@,
            matrices: self.matrices@,
            clear_color: self.clear_color@,
            clear_depth: self.clear_depth@,
            tex_params: self.tex_params@,
            irq_mode: self.irq_mode,
            irq_active: self.irq_active,
            irq_token: self.irq_token,
            pixels: self.pixels@,
            rendering: self.rendering,
        }
    }
}

impl Engine3D {
    pub fn new() -> (r: Self)
        ensures
            r@.wf(),
            r@.queue.pending().len() == 0,
            is_reset(r@.matrices),
            r@.clear_color == 0 && r@.clear_depth == 0 && r@.tex_params == 0,
            r@.irq_mode == 0,
            r@.irq_token is None,
            !r@.rendering,
            forall|i: int| 0 <= i < r@.pixels.len() ==> #[trigger] r@.pixels[i] == 0,
    {
        let matrices = MatrixEngine::new();
        Engine3D {
            queue: GeometryQueue::new(),
            matrices,
            clear_color: ClearColor::new(),
            clear_depth: ClearDepth::new(),
            tex_params: TextureParams::new(),
            irq_mode: 0,
            irq_active: false,
            irq_token: None,
            pixels: vec![0u16; WIDTH * HEIGHT],
            rendering: false,
        }
    }

    pub fn matrices(&self) -> (r: &MatrixEngine)
        ensures
            r@ == self@.matrices,
    {
        &self.matrices
    }

    pub fn queue(&self) -> (r: &GeometryQueue)
        ensures
            r@ == self@.queue,
    {
        &self.queue
    }

    pub fn clear_color(&self) -> (r: &ClearColor)
        ensures
            r@ == self@.clear_color,
    {
        &self.clear_color
    }

    pub fn clear_depth(&self) -> (r: &ClearDepth)
        ensures
            r@ == self@.clear_depth,
    {
        &self.clear_depth
    }

    pub fn tex_params(&self) -> (r: &TextureParams)
        ensures
            r@ == self@.tex_params,
    {
        &self.tex_params
    }

    /// The rendered pixels, unless a rendering pass is writing them.
    pub fn framebuffer(&self) -> (r: Option<&Vec<u16>>)
        ensures
            r is None <==> self@.rendering,
            r matches Some(p) ==> p@ == self@.pixels,
    {
        if self.rendering {
            None
        } else {
            Some(&self.pixels)
        }
    }

    /// The status register.
    pub fn gxstat(&self) -> (r: u32)
        requires
            self@.wf(),
        ensures
            r == gxstat_of(self@),
    {
        let fifo = self.queue.fifo_len();
        let pipe = self.queue.pipe_len();
        assert(self@.queue.pending().len() == fifo + pipe);
        let count = fifo + pipe;
        pack_status(
            self.matrices.position().sp() as u32,
            self.matrices.projection().sp() as u32,
            self.matrices.underflow(),
            self.matrices.overflow(),
            count as u32,
            fifo <= FIFO_LEN / 2,
            fifo == 0,
            count > 0,
            self.irq_mode as u32,
        )
    }

    /// Looks at the interrupt condition again and asks the scheduler for a
    /// delivery when it has just arisen, or cancels the pending one when it
    /// has gone away.
    fn settle(&mut self, scheduler: &mut Scheduler)
        ensures
            final(self)@ == settled(old(self)@, final(self)@.irq_token),
            bridge_requests(
                old(self)@.irq_active,
                old(self)@.irq_token,
                final(self)@.irq_active,
                old(scheduler)@,
                final(scheduler)@,
                final(self)@.irq_token,
            ),
    {
        let fifo = self.queue.fifo_len();
        let now = (self.irq_mode == IRQ_ON_EMPTY && fifo == 0) || (self.irq_mode == IRQ_ON_HALF && fifo
            <= FIFO_LEN / 2);
        if now && !self.irq_active {
            let token = scheduler.schedule(FIFO_IRQ_DELAY, Event::GeometryFifoInterrupt);
            self.irq_token = Some(token);
        } else if !now && self.irq_active {
            if let Some(t) = self.irq_token {
                scheduler.cancel(t);
            }
            self.irq_token = None;
        }
        self.irq_active = now;
    }

    /// Reads a byte of the register page; only the status register reads
    /// back, other offsets read as zero.
    pub fn read_register(&self, addr: u32) -> (r: u8)
        requires
            addr / 0x1000 == IO_PAGE,
            self@.wf(),
        ensures
            r == if 0x600 <= addr % 0x1000 <= 0x603 {
                byte_of(gxstat_of(self@), (addr % 4) as int)
            } else {
                0
            },
    {
        let off = addr % 0x1000;
        if 0x600 <= off && off <= 0x603 {
            read_byte(self.gxstat(), (addr % 4) as usize)
        } else {
            0
        }
    }

    /// Writes a byte of the register page; offsets outside the register map
    /// are ignored.
    pub fn write_register(&mut self, scheduler: &mut Scheduler, addr: u32, value: u8)
        requires
            addr / 0x1000 == IO_PAGE,
            old(self)@.wf(),
        ensures
            final(self)@.wf(),
            final(self)@ == settled(write_effect(old(self)@, addr, value), final(self)@.irq_token),
            bridge_requests(
                old(self)@.irq_active,
                old(self)@.irq_token,
                final(self)@.irq_active,
                old(scheduler)@,
                final(scheduler)@,
                final(self)@.irq_token,
            ),
    {
        let off = addr % 0x1000;
        if 0x350 <= off && off <= 0x353 {
            self.clear_color.write((addr % 4) as usize, value);
        } else if 0x354 <= off && off <= 0x355 {
            self.clear_depth.write((addr % 2) as usize, value);
        } else if off == 0x601 {
            self.matrices.clear_flags(value >= 0x80, (value / 0x40) % 2 == 1);
        } else if off == 0x603 {
            self.irq_mode = value / 0x40;
        }
        self.settle(scheduler);
    }

    /// Takes a command from the bus into the queue. A full queue refuses it
    /// (the bus is to stall) and returns false.
    pub fn enqueue(&mut self, scheduler: &mut Scheduler, entry: GeometryCommandEntry) -> (ok: bool)
        requires
            old(self)@.wf(),
        ensures
            final(self)@.wf(),
            ok == (old(self)@.queue.pending().len() < FIFO_LEN + PIPE_LEN),
            ok ==> final(self)@.queue.pending() == old(self)@.queue.pending().push(entry),
            final(self)@ == settled(
                Engine3DModel { queue: queue_enqueue(old(self)@.queue, entry), ..old(self)@ },
                final(self)@.irq_token,
            ),
            bridge_requests(
                old(self)@.irq_active,
                old(self)@.irq_token,
                final(self)@.irq_active,
                old(scheduler)@,
                final(scheduler)@,
                final(self)@.irq_token,
            ),
    {
        let ok = self.queue.enqueue(entry);
        self.settle(scheduler);
        ok
    }

    /// Takes the oldest pending command out of the queue and carries it out
    /// if it is a matrix command. Returns it, so that a command for the
    /// renderer can be passed on; `None` when nothing is pending.
    pub fn dequeue_and_execute(&mut self, scheduler: &mut Scheduler) -> (r: Option<
        GeometryCommandEntry,
    >)
        requires
            old(self)@.wf(),
        ensures
            final(self)@.wf(),
            r is None <==> old(self)@.queue.pending().len() == 0,
            r matches Some(c) ==> c == old(self)@.queue.pending()[0] && command_effect(
                old(self)@.matrices,
                c,
                final(self)@.matrices,
            ),
            r is None ==> final(self)@.matrices == old(self)@.matrices,
            final(self)@.queue.pending() == if old(self)@.queue.pending().len() == 0 {
                old(self)@.queue.pending()
            } else {
                old(self)@.queue.pending().drop_first()
            },
            final(self)@ == settled(
                Engine3DModel {
                    queue: queue_dequeue(old(self)@.queue),
                    matrices: final(self)@.matrices,
                    ..old(self)@
                },
                final(self)@.irq_token,
            ),
            bridge_requests(
                old(self)@.irq_active,
                old(self)@.irq_token,
                final(self)@.irq_active,
                old(scheduler)@,
                final(scheduler)@,
                final(self)@.irq_token,
            ),
    {
        let r = self.queue.dequeue();
        if let Some(c) = &r {
            execute(&mut self.matrices, c);
        }
        self.settle(scheduler);
        r
    }
}

/// The entry count that the status register reports is the number of
/// commands taken in and not yet executed. Every operation of the engine
/// keeps the state well formed, so this holds after any sequence of them.
pub proof fn lemma_status_counts_pending(s: Engine3DModel)
    requires
        s.wf(),
    ensures
        (gxstat_of(s) >> 16u32) & 0x1ff == s.queue.pending().len(),
{
    let low = status_low(s.matrices.pos.sp as u32, s.matrices.proj.sp as u32, s.matrices.underflow, s.matrices.overflow);
    let high = status_high(
        s.queue.fifo.len() <= FIFO_LEN / 2,
        s.queue.fifo.len() == 0,
        s.queue.pending().len() > 0,
        s.irq_mode as u32,
    );
    lemma_status_count(low, s.queue.pending().len() as u32, high);
}

} // verus!
