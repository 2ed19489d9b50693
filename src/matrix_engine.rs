//! The four matrix classes, the mode that selects among them, and the sticky
//! stack overflow and underflow flags.
use vstd::prelude::*;
use crate::matrix::{
    product, stack_pop, stack_push, stack_restore, stack_store, identity_entries, is_zero,
    Matrix, MatrixStack, StackModel,
};

verus! {

pub const PROJECTION_DEPTH: usize = 1;
pub const POSITION_DEPTH: usize = 31;
pub const TEXTURE_DEPTH: usize = 1;

/// Which current matrix (and stack) later commands target. In `Position`
/// mode loads and multiplies reach the position matrix only; in `Vector`
/// mode they reach both the position and the vector matrix. Push and pop
/// move the position and vector stacks together in either mode.
#[derive(Clone, Copy, Debug, PartialEq, Eq, Structural)]
pub enum MatrixMode {
    Projection,
    Position,
    Vector,
    Texture,
}

/// The state of the matrix engine.
pub struct EngineModel {
    pub mode: MatrixMode,
    pub proj: StackModel,
    pub pos: StackModel,
    pub vec: StackModel,
    pub tex: StackModel,
    pub overflow: bool,
    pub underflow: bool,
}

impl EngineModel {
    pub open spec fn wf(self) -> bool {
        &&& self.proj.wf() && self.proj.capacity() == PROJECTION_DEPTH
        &&& self.pos.wf() && self.pos.capacity() == POSITION_DEPTH
        &&& self.vec.wf() && self.vec.capacity() == POSITION_DEPTH
        &&& self.tex.wf() && self.tex.capacity() == TEXTURE_DEPTH
        &&& self.pos.sp == self.vec.sp
    }

    /// The stack that push and pop move in the current mode (for the shared
    /// position/vector pointer, the position stack).
    pub open spec fn target(self) -> StackModel {
        match self.mode {
            MatrixMode::Projection => self.proj,
            MatrixMode::Position | MatrixMode::Vector => self.pos,
            MatrixMode::Texture => self.tex,
        }
    }
}

/// Applies a stack operation to the stacks of the current mode; the
/// position and vector stacks always move together.
pub open spec fn on_stacks(e: EngineModel, f: spec_fn(StackModel) -> StackModel) -> EngineModel {
    match e.mode {
        MatrixMode::Projection => EngineModel { proj: f(e.proj), ..e },
        MatrixMode::Position | MatrixMode::Vector => EngineModel { pos: f(e.pos), vec: f(e.vec), ..e },
        MatrixMode::Texture => EngineModel { tex: f(e.tex), ..e },
    }
}

/// Applies a change of the current matrix to the matrices of the current mode.
pub open spec fn on_current(e: EngineModel, f: spec_fn(StackModel) -> StackModel) -> EngineModel {
    match e.mode {
        MatrixMode::Projection => EngineModel { proj: f(e.proj), ..e },
        MatrixMode::Position => EngineModel { pos: f(e.pos), ..e },
        MatrixMode::Vector => EngineModel { pos: f(e.pos), vec: f(e.vec), ..e },
        MatrixMode::Texture => EngineModel { tex: f(e.tex), ..e },
    }
}

pub open spec fn engine_load(e: EngineModel, m: Matrix) -> EngineModel {
    on_current(e, |s: StackModel| StackModel { current: m, ..s })
}

pub open spec fn engine_push(e: EngineModel) -> EngineModel {
    let r = on_stacks(e, |s: StackModel| stack_push(s));
    EngineModel { overflow: e.overflow || e.target().sp >= e.target().capacity(), ..r }
}

pub open spec fn engine_pop(e: EngineModel, n: nat) -> EngineModel {
    let r = on_stacks(e, |s: StackModel| stack_pop(s, n));
    EngineModel { underflow: e.underflow || n > e.target().sp, ..r }
}

pub open spec fn engine_store(e: EngineModel, slot: nat) -> EngineModel {
    let r = on_stacks(e, |s: StackModel| stack_store(s, slot));
    EngineModel { overflow: e.overflow || slot >= e.target().capacity(), ..r }
}

pub open spec fn engine_restore(e: EngineModel, slot: nat) -> EngineModel {
    let r = on_stacks(e, |s: StackModel| stack_restore(s, slot));
    EngineModel { overflow: e.overflow || slot >= e.target().capacity(), ..r }
}

/// Projection mode, empty stacks, zero current matrices, no flag raised.
pub open spec fn is_reset(e: EngineModel) -> bool {
    &&& e.mode == MatrixMode::Projection
    &&& e.proj.sp == 0 && e.pos.sp == 0 && e.vec.sp == 0 && e.tex.sp == 0
    &&& is_zero(e.proj.current) && is_zero(e.pos.current)
    &&& is_zero(e.vec.current) && is_zero(e.tex.current)
    &&& !e.overflow && !e.underflow
}

/// Where `hit`, `after` holds `m` times the current matrix of `before`, its
/// stack untouched; elsewhere `after` is `before`.
pub open spec fn multiplied_if(hit: bool, before: StackModel, after: StackModel, m: Matrix) -> bool {
    if hit {
        &&& after.current.m@ == product(m.m@, before.current.m@)
        &&& after.slots == before.slots
        &&& after.sp == before.sp
    } else {
        after == before
    }
}

/// The engine `after` is `before` with each current matrix `c` of the mode
/// replaced by `m * c`.
pub open spec fn multiply_effect(before: EngineModel, m: Matrix, after: EngineModel) -> bool {
    &&& after.mode == before.mode
    &&& after.overflow == before.overflow
    &&& after.underflow == before.underflow
    &&& multiplied_if(before.mode == MatrixMode::Projection, before.proj, after.proj, m)
    &&& multiplied_if(
        before.mode == MatrixMode::Position || before.mode == MatrixMode::Vector,
        before.pos,
        after.pos,
        m,
    )
    &&& multiplied_if(before.mode == MatrixMode::Vector, before.vec, after.vec, m)
    &&& multiplied_if(before.mode == MatrixMode::Texture, before.tex, after.tex, m)
}

/// `k` pushes in a row.
pub open spec fn push_times(e: EngineModel, k: nat) -> EngineModel
    decreases k,
{
    if k == 0 {
        e
    } else {
        engine_push(push_times(e, (k - 1) as nat))
    }
}

proof fn lemma_push_times(e: EngineModel, k: nat)
    requires
        e.wf(),
        e.target().sp == 0,
        !e.overflow,
        k <= e.target().capacity(),
    ensures
        push_times(e, k).wf(),
        push_times(e, k).mode == e.mode,
        push_times(e, k).target().capacity() == e.target().capacity(),
        push_times(e, k).target().sp == k,
        !push_times(e, k).overflow,
    decreases k,
{
    if k > 0 {
        lemma_push_times(e, (k - 1) as nat);
    }
}

/// For any mode, starting from an empty stack with the overflow flag clear:
/// each push up to the stack's capacity finds room and leaves the flag clear,
/// and the push after that raises the flag and leaves the pointer at the
/// capacity.
pub proof fn lemma_push_to_capacity(e: EngineModel, k: nat)
    requires
        e.wf(),
        e.target().sp == 0,
        !e.overflow,
    ensures
        k < e.target().capacity() ==> push_times(e, k).target().sp < push_times(e, k).target().capacity(),
        k <= e.target().capacity() ==> push_times(e, k).target().sp == k && !push_times(e, k).overflow,
        push_times(e, e.target().capacity() + 1).overflow,
        push_times(e, e.target().capacity() + 1).target().sp == e.target().capacity(),
{
    if k <= e.target().capacity() {
        lemma_push_times(e, k);
    }
    lemma_push_times(e, e.target().capacity());
    assert(push_times(e, e.target().capacity() + 1) == engine_push(push_times(e, e.target().capacity())));
}

/// Popping more matrices than the stack holds raises the underflow flag,
/// clears the pointer, and leaves every current matrix and saved slot as it was.
pub proof fn lemma_pop_underflow(e: EngineModel, n: nat)
    requires
        e.wf(),
        n > e.target().sp,
    ensures
        engine_pop(e, n).underflow,
        engine_pop(e, n).target().sp == 0,
        engine_pop(e, n).proj.current == e.proj.current,
        engine_pop(e, n).pos.current == e.pos.current,
        engine_pop(e, n).vec.current == e.vec.current,
        engine_pop(e, n).tex.current == e.tex.current,
        engine_pop(e, n).target().slots == e.target().slots,
        engine_pop(e, n).overflow == e.overflow,
        engine_pop(e, n).wf(),
{
}

/// The matrix engine: current matrices, stacks, mode and sticky flags.
pub struct MatrixEngine {
    mode: MatrixMode,
    proj: MatrixStack,
    pos: MatrixStack,
    vec: MatrixStack,
    tex: MatrixStack,
    overflow: bool,
    underflow: bool,
}

impl View for MatrixEngine {
    type V = EngineModel;

    closed spec fn view(&self) -> EngineModel {
        EngineModel {
            mode: self.mode,
            proj: self.proj@,
            pos: self.pos@,
            vec: self.vec@,
            tex: self.tex@,
            overflow: self.overflow,
            underflow: self.underflow,
        }
    }
}

impl MatrixEngine {
    /// Projection mode, empty stacks, zero matrices, no flag raised.
    pub fn new() -> (r: MatrixEngine)
        ensures
            r@.wf(),
            is_reset(r@),
    {
        MatrixEngine {
            mode: MatrixMode::Projection,
            proj: MatrixStack::new(PROJECTION_DEPTH),
            pos: MatrixStack::new(POSITION_DEPTH),
            vec: MatrixStack::new(POSITION_DEPTH),
            tex: MatrixStack::new(TEXTURE_DEPTH),
            overflow: false,
            underflow: false,
        }
    }

    pub fn mode(&self) -> (r: MatrixMode)
        ensures
            r == self@.mode,
    {
        self.mode
    }

    pub fn overflow(&self) -> (r: bool)
        ensures
            r == self@.overflow,
    {
        self.overflow
    }

    pub fn underflow(&self) -> (r: bool)
        ensures
            r == self@.underflow,
    {
        self.underflow
    }

    pub fn projection(&self) -> (r: &MatrixStack)
        ensures
            r@ == self@.proj,
    {
        &self.proj
    }

    pub fn position(&self) -> (r: &MatrixStack)
        ensures
            r@ == self@.pos,
    {
        &self.pos
    }

    pub fn vector(&self) -> (r: &MatrixStack)
        ensures
            r@ == self@.vec,
    {
        &self.vec
    }

    pub fn texture(&self) -> (r: &MatrixStack)
        ensures
            r@ == self@.tex,
    {
        &self.tex
    }

    /// Lowers the sticky flags named (a write of 1 to each).
    pub fn clear_flags(&mut self, overflow: bool, underflow: bool)
        ensures
            final(self)@ == (EngineModel {
                overflow: old(self)@.overflow && !overflow,
                underflow: old(self)@.underflow && !underflow,
                ..old(self)@
            }),
    {
        if overflow {
            self.overflow = false;
        }
        if underflow {
            self.underflow = false;
        }
    }

    pub fn set_mode(&mut self, mode: MatrixMode)
        ensures
            final(self)@ == (EngineModel { mode, ..old(self)@ }),
    {
        self.mode = mode;
    }

    /// Replaces the current matrix (or matrices) of the mode by `m`.
    pub fn load(&mut self, m: Matrix)
        requires
            old(self)@.wf(),
        ensures
            final(self)@ == engine_load(old(self)@, m),
            final(self)@.wf(),
    {
        match self.mode {
            MatrixMode::Projection => self.proj.load(m),
            MatrixMode::Position => self.pos.load(m),
            MatrixMode::Vector => {
                self.pos.load(m);
                self.vec.load(m);
            },
            MatrixMode::Texture => self.tex.load(m),
        }
    }

    pub fn load_identity(&mut self)
        requires
            old(self)@.wf(),
        ensures
            final(self)@ == engine_load(old(self)@, final(self)@.target().current),
            final(self)@.target().current.m@ == identity_entries(),
            final(self)@.wf(),
    {
        self.load(Matrix::identity());
    }

    /// Replaces each current matrix `c` of the mode by `m * c`.
    pub fn multiply(&mut self, m: &Matrix)
        requires
            old(self)@.wf(),
        ensures
            final(self)@.wf(),
            multiply_effect(old(self)@, *m, final(self)@),
    {
        match self.mode {
            MatrixMode::Projection => {
                let c = m.multiply(&self.proj.current());
                self.proj.load(c);
            },
            MatrixMode::Position => {
                let c = m.multiply(&self.pos.current());
                self.pos.load(c);
            },
            MatrixMode::Vector => {
                let c = m.multiply(&self.pos.current());
                let d = m.multiply(&self.vec.current());
                self.pos.load(c);
                self.vec.load(d);
            },
            MatrixMode::Texture => {
                let c = m.multiply(&self.tex.current());
                self.tex.load(c);
            },
        }
    }

    /// Saves the current matrix of the mode; on a full stack raises the
    /// overflow flag instead. Returns whether there was room.
    pub fn push(&mut self) -> (ok: bool)
        requires
            old(self)@.wf(),
        ensures
            ok == (old(self)@.target().sp < old(self)@.target().capacity()),
            final(self)@ == engine_push(old(self)@),
            final(self)@.wf(),
    {
        let ok = match self.mode {
            MatrixMode::Projection => self.proj.push(),
            MatrixMode::Position | MatrixMode::Vector => {
                let a = self.pos.push();
                self.vec.push();
                a
            },
            MatrixMode::Texture => self.tex.push(),
        };
        if !ok {
            self.overflow = true;
        }
        ok
    }

    /// Pops `n` matrices; popping more than were pushed raises the underflow
    /// flag, clears the pointer and keeps the current matrix. Returns whether
    /// `n` had been pushed.
    pub fn pop(&mut self, n: u8) -> (ok: bool)
        requires
            old(self)@.wf(),
        ensures
            ok == (n <= old(self)@.target().sp),
            final(self)@ == engine_pop(old(self)@, n as nat),
            final(self)@.wf(),
    {
        let ok = match self.mode {
            MatrixMode::Projection => self.proj.pop(n as usize),
            MatrixMode::Position | MatrixMode::Vector => {
                let a = self.pos.pop(n as usize);
                self.vec.pop(n as usize);
                a
            },
            MatrixMode::Texture => self.tex.pop(n as usize),
        };
        if !ok {
            self.underflow = true;
        }
        ok
    }

    /// Saves the current matrix of the mode in `slot`; a slot past the
    /// stack's capacity raises the overflow flag instead.
    pub fn store(&mut self, slot: u8) -> (ok: bool)
        requires
            old(self)@.wf(),
        ensures
            ok == ((slot as nat) < old(self)@.target().capacity()),
            final(self)@ == engine_store(old(self)@, slot as nat),
            final(self)@.wf(),
    {
        let ok = match self.mode {
            MatrixMode::Projection => self.proj.store(slot as usize),
            MatrixMode::Position | MatrixMode::Vector => {
                let a = self.pos.store(slot as usize);
                self.vec.store(slot as usize);
                a
            },
            MatrixMode::Texture => self.tex.store(slot as usize),
        };
        if !ok {
            self.overflow = true;
        }
        ok
    }

    /// Loads the current matrix of the mode from `slot`; a slot past the
    /// stack's capacity raises the overflow flag instead.
    pub fn restore(&mut self, slot: u8) -> (ok: bool)
        requires
            old(self)@.wf(),
        ensures
            ok == ((slot as nat) < old(self)@.target().capacity()),
            final(self)@ == engine_restore(old(self)@, slot as nat),
            final(self)@.wf(),
    {
        let ok = match self.mode {
            MatrixMode::Projection => self.proj.restore(slot as usize),
            MatrixMode::Position | MatrixMode::Vector => {
                let a = self.pos.restore(slot as usize);
                self.vec.restore(slot as usize);
                a
            },
            MatrixMode::Texture => self.tex.restore(slot as usize),
        };
        if !ok {
            self.overflow = true;
        }
        ok
    }
}

} // verus!
