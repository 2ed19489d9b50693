//! Fixed-point 4x4 matrices and the bounded stacks that save them.
use vstd::prelude::*;

verus! {

/// Number of fractional bits of a matrix entry.
pub const FRAC_BITS: u32 = 12;
/// The entry value that stands for 1.0.
pub const ONE: i32 = 0x1000;

/// A 4x4 signed fixed-point matrix, row-major: entry (i, j) is `m[4 * i + j]`.
#[derive(Clone, Copy, Debug)]
pub struct Matrix {
    pub m: [i32; 16],
}

/// Every entry is zero.
pub open spec fn is_zero(a: Matrix) -> bool {
    forall|k: int| 0 <= k < 16 ==> #[trigger] a.m@[k] == 0
}

/// The identity matrix, entry by entry.
pub open spec fn identity_entries() -> Seq<i32> {
    Seq::new(16, |k: int| if k % 5 == 0 { ONE } else { 0i32 })
}

/// Row `i` of `a` times column `j` of `b`, exactly.
pub open spec fn dot(a: Seq<i32>, b: Seq<i32>, i: int, j: int) -> int {
    a[4 * i] * b[j] + a[4 * i + 1] * b[4 + j] + a[4 * i + 2] * b[8 + j] + a[4 * i + 3] * b[12 + j]
}

/// Entry (i, j) of the fixed-point product: the exact sum shifted right by
/// the fractional bits (rounding toward minus infinity), wrapped to 32 bits.
pub open spec fn product_entry(a: Seq<i32>, b: Seq<i32>, i: int, j: int) -> i32 {
    ((dot(a, b, i, j) as i128) >> FRAC_BITS) as i32
}

/// The fixed-point product `a * b`, entry by entry.
pub open spec fn product(a: Seq<i32>, b: Seq<i32>) -> Seq<i32> {
    Seq::new(16, |k: int| product_entry(a, b, k / 4, k % 4))
}

fn mul_wide(x: i32, y: i32) -> (r: i64)
    ensures
        r == x * y,
        -0x4000_0000_0000_0000 <= r <= 0x4000_0000_0000_0000,
{
    let wx = x as i64;
    let wy = y as i64;
    assert(-0x4000_0000_0000_0000 <= wx * wy <= 0x4000_0000_0000_0000) by (nonlinear_arith)
        requires
            -0x8000_0000 <= wx <= 0x7fff_ffff,
            -0x8000_0000 <= wy <= 0x7fff_ffff,
    ;
    wx * wy
}

impl Matrix {
    /// The all-zero matrix.
    pub fn empty() -> (r: Matrix)
        ensures
            is_zero(r),
    {
        Matrix { m: [0i32; 16] }
    }

    pub fn identity() -> (r: Matrix)
        ensures
            r.m@ == identity_entries(),
    {
        let mut m = [0i32; 16];
        m[0] = ONE;
        m[5] = ONE;
        m[10] = ONE;
        m[15] = ONE;
        assert(m@ =~= identity_entries());
        Matrix { m }
    }

    /// The fixed-point product `self * other`.
    pub fn multiply(&self, other: &Matrix) -> (r: Matrix)
        ensures
            r.m@ == product(self.m@, other.m@),
    {
        let a = &self.m;
        let b = &other.m;
        let mut m = [0i32; 16];
        let mut k: usize = 0;
        while k < 16
            invariant
                k <= 16,
                forall|t: int| 0 <= t < k ==> #[trigger] m@[t] == product_entry(a@, b@, t / 4, t % 4),
            decreases 16 - k,
        {
            let i: usize = k / 4;
            let j: usize = k % 4;
            let s: i128 = mul_wide(a[4 * i], b[j]) as i128 + mul_wide(a[4 * i + 1], b[4 + j]) as i128
                + mul_wide(a[4 * i + 2], b[8 + j]) as i128 + mul_wide(a[4 * i + 3], b[12 + j]) as i128;
            assert(s == dot(a@, b@, i as int, j as int));
            m[k] = (s >> FRAC_BITS) as i32;
            k = k + 1;
        }
        assert(m@ =~= product(a@, b@));
        Matrix { m }
    }
}

/// What a matrix stack holds: the current matrix, the saved slots (as many
/// as the capacity) and the stack pointer.
pub struct StackModel {
    pub current: Matrix,
    pub slots: Seq<Matrix>,
    pub sp: nat,
}

impl StackModel {
    pub open spec fn capacity(self) -> nat {
        self.slots.len()
    }

    pub open spec fn wf(self) -> bool {
        self.sp <= self.capacity()
    }
}

/// A push saves the current matrix at the stack pointer and advances it; on
/// a full stack it changes nothing.
pub open spec fn stack_push(s: StackModel) -> StackModel {
    if s.sp < s.capacity() {
        StackModel { current: s.current, slots: s.slots.update(s.sp as int, s.current), sp: s.sp + 1 }
    } else {
        s
    }
}

/// A pop of `n` moves the pointer back by `n` and restores the current matrix
/// from the slot it now points at; popping more than was pushed clears the
/// pointer and keeps the current matrix.
pub open spec fn stack_pop(s: StackModel, n: nat) -> StackModel {
    if n > s.sp {
        StackModel { current: s.current, slots: s.slots, sp: 0 }
    } else {
        let sp = (s.sp - n) as nat;
        StackModel {
            current: if sp < s.capacity() { s.slots[sp as int] } else { s.current },
            slots: s.slots,
            sp,
        }
    }
}

/// Saves the current matrix in a given slot; a slot past the capacity changes nothing.
pub open spec fn stack_store(s: StackModel, slot: nat) -> StackModel {
    if slot < s.capacity() {
        StackModel { current: s.current, slots: s.slots.update(slot as int, s.current), sp: s.sp }
    } else {
        s
    }
}

/// Loads the current matrix from a given slot; a slot past the capacity changes nothing.
pub open spec fn stack_restore(s: StackModel, slot: nat) -> StackModel {
    if slot < s.capacity() {
        StackModel { current: s.slots[slot as int], slots: s.slots, sp: s.sp }
    } else {
        s
    }
}

/// A current matrix with its bounded stack of saved matrices.
pub struct MatrixStack {
    current: Matrix,
    slots: Vec<Matrix>,
    sp: usize,
}

impl View for MatrixStack {
    type V = StackModel;

    closed spec fn view(&self) -> StackModel {
        StackModel { current: self.current, slots: self.slots@, sp: self.sp as nat }
    }
}

impl MatrixStack {
    /// An empty stack of `capacity` zero slots with a zero current matrix.
    pub fn new(capacity: usize) -> (r: MatrixStack)
        ensures
            r@.wf(),
            r@.capacity() == capacity,
            r@.sp == 0,
            is_zero(r@.current),
            forall|i: int| 0 <= i < capacity ==> is_zero(#[trigger] r@.slots[i]),
    {
        let mut slots: Vec<Matrix> = Vec::new();
        let mut i: usize = 0;
        while i < capacity
            invariant
                i <= capacity,
                slots@.len() == i,
                forall|k: int| 0 <= k < i ==> is_zero(#[trigger] slots@[k]),
            decreases capacity - i,
        {
            slots.push(Matrix::empty());
            i = i + 1;
        }
        MatrixStack { current: Matrix::empty(), slots, sp: 0 }
    }

    pub fn current(&self) -> (r: Matrix)
        ensures
            r == self@.current,
    {
        self.current
    }

    pub fn sp(&self) -> (r: usize)
        ensures
            r == self@.sp,
    {
        self.sp
    }

    pub fn capacity(&self) -> (r: usize)
        ensures
            r == self@.capacity(),
    {
        self.slots.len()
    }

    /// Replaces the current matrix.
    pub fn load(&mut self, m: Matrix)
        ensures
            final(self)@ == (StackModel { current: m, ..old(self)@ }),
    {
        self.current = m;
    }

    /// Replaces the current matrix by `m` times it.
    pub fn multiply(&mut self, m: &Matrix)
        ensures
            final(self)@.current.m@ == product(m.m@, old(self)@.current.m@),
            final(self)@.slots == old(self)@.slots,
            final(self)@.sp == old(self)@.sp,
    {
        self.current = m.multiply(&self.current);
    }

    /// Returns whether there was room.
    pub fn push(&mut self) -> (ok: bool)
        requires
            old(self)@.wf(),
        ensures
            ok == (old(self)@.sp < old(self)@.capacity()),
            final(self)@ == stack_push(old(self)@),
            final(self)@.wf(),
    {
        if self.sp < self.slots.len() {
            self.slots.set(self.sp, self.current);
            self.sp = self.sp + 1;
            true
        } else {
            false
        }
    }

    /// Returns whether `n` matrices had been pushed.
    pub fn pop(&mut self, n: usize) -> (ok: bool)
        requires
            old(self)@.wf(),
        ensures
            ok == (n <= old(self)@.sp),
            final(self)@ == stack_pop(old(self)@, n as nat),
            final(self)@.wf(),
    {
        if n > self.sp {
            self.sp = 0;
            false
        } else {
            self.sp = self.sp - n;
            if self.sp < self.slots.len() {
                self.current = self.slots[self.sp];
            }
            true
        }
    }

    /// Returns whether the slot exists.
    pub fn store(&mut self, slot: usize) -> (ok: bool)
        requires
            old(self)@.wf(),
        ensures
            ok == (slot < old(self)@.capacity()),
            final(self)@ == stack_store(old(self)@, slot as nat),
            final(self)@.wf(),
    {
        if slot < self.slots.len() {
            self.slots.set(slot, self.current);
            true
        } else {
            false
        }
    }

    /// Returns whether the slot exists.
    pub fn restore(&mut self, slot: usize) -> (ok: bool)
        requires
            old(self)@.wf(),
        ensures
            ok == (slot < old(self)@.capacity()),
            final(self)@ == stack_restore(old(self)@, slot as nat),
            final(self)@.wf(),
    {
        if slot < self.slots.len() {
            self.current = self.slots[slot];
            true
        } else {
            false
        }
    }
}

} // verus!
