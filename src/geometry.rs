//! Geometry commands and the two-stage bounded queue that holds them
//! between the bus and execution.
use vstd::prelude::*;
use std::collections::VecDeque;
use crate::matrix::Matrix;
use crate::matrix::identity_entries;
use crate::matrix_engine::{
    engine_load, engine_pop, engine_push, engine_restore, engine_store, multiply_effect,
    EngineModel, MatrixEngine, MatrixMode,
};

verus! {

/// Capacity of the primary buffer.
pub const FIFO_LEN: usize = 256;
/// Capacity of the execution buffer.
pub const PIPE_LEN: usize = 4;

/// A geometry command with its parameters. The matrix commands are carried
/// out by the matrix engine; the others are passed on to the renderer as
/// they are.
#[derive(Clone, Debug)]
pub enum GeometryCommandEntry {
    SetMode(MatrixMode),
    LoadIdentity,
    LoadMatrix(Matrix),
    Multiply(Matrix),
    Push,
    Pop(u8),
    StoreToStack(u8),
    RestoreFromStack(u8),
    /// A vertex, material or lighting command: its opcode and parameter words.
    Other { opcode: u8, params: Vec<u32> },
}

/// What carrying out `c` does to the matrix engine `before`, giving `after`.
/// Commands other than matrix commands leave it as it was.
pub open spec fn command_effect(before: EngineModel, c: GeometryCommandEntry, after: EngineModel) -> bool {
    match c {
        GeometryCommandEntry::SetMode(mode) => after == (EngineModel { mode, ..before }),
        GeometryCommandEntry::LoadIdentity => {
            &&& after == engine_load(before, after.target().current)
            &&& after.target().current.m@ == identity_entries()
        },
        GeometryCommandEntry::LoadMatrix(m) => after == engine_load(before, m),
        GeometryCommandEntry::Multiply(m) => multiply_effect(before, m, after),
        GeometryCommandEntry::Push => after == engine_push(before),
        GeometryCommandEntry::Pop(n) => after == engine_pop(before, n as nat),
        GeometryCommandEntry::StoreToStack(slot) => after == engine_store(before, slot as nat),
        GeometryCommandEntry::RestoreFromStack(slot) => after == engine_restore(before, slot as nat),
        GeometryCommandEntry::Other { .. } => after == before,
    }
}

/// Whether `c` is carried out by the matrix engine.
pub open spec fn is_matrix_command(c: GeometryCommandEntry) -> bool {
    !(c is Other)
}

/// Carries out a matrix command on the matrix engine; returns whether `c`
/// was one (other commands are for the renderer and change nothing here).
pub fn execute(engine: &mut MatrixEngine, c: &GeometryCommandEntry) -> (r: bool)
    requires
        old(engine)@.wf(),
    ensures
        final(engine)@.wf(),
        r == is_matrix_command(*c),
        command_effect(old(engine)@, *c, final(engine)@),
{
    match c {
        GeometryCommandEntry::SetMode(mode) => engine.set_mode(*mode),
        GeometryCommandEntry::LoadIdentity => engine.load_identity(),
        GeometryCommandEntry::LoadMatrix(m) => engine.load(*m),
        GeometryCommandEntry::Multiply(m) => engine.multiply(m),
        GeometryCommandEntry::Push => {
            engine.push();
        },
        GeometryCommandEntry::Pop(n) => {
            engine.pop(*n);
        },
        GeometryCommandEntry::StoreToStack(slot) => {
            engine.store(*slot);
        },
        GeometryCommandEntry::RestoreFromStack(slot) => {
            engine.restore(*slot);
        },
        GeometryCommandEntry::Other { .. } => {
            return false;
        },
    }
    true
}

/// The two buffers: `pipe` is the execution buffer, `fifo` the primary one.
pub struct QueueModel {
    pub fifo: Seq<GeometryCommandEntry>,
    pub pipe: Seq<GeometryCommandEntry>,
}

impl QueueModel {
    /// The primary buffer holds entries only while the execution buffer is full.
    pub open spec fn wf(self) -> bool {
        &&& self.pipe.len() <= PIPE_LEN
        &&& self.fifo.len() <= FIFO_LEN
        &&& self.fifo.len() > 0 ==> self.pipe.len() == PIPE_LEN
    }

    /// The entries not yet executed, oldest first.
    pub open spec fn pending(self) -> Seq<GeometryCommandEntry> {
        self.pipe + self.fifo
    }
}

/// Where an entry goes: the execution buffer if it has room, else the
/// primary buffer if that has room, else nowhere.
pub open spec fn queue_enqueue(q: QueueModel, e: GeometryCommandEntry) -> QueueModel {
    if q.pipe.len() < PIPE_LEN {
        QueueModel { fifo: q.fifo, pipe: q.pipe.push(e) }
    } else if q.fifo.len() < FIFO_LEN {
        QueueModel { fifo: q.fifo.push(e), pipe: q.pipe }
    } else {
        q
    }
}

/// Takes the oldest entry out of the execution buffer, which then takes the
/// oldest entry of the primary buffer, if any.
pub open spec fn queue_dequeue(q: QueueModel) -> QueueModel {
    if q.pipe.len() == 0 {
        q
    } else if q.fifo.len() == 0 {
        QueueModel { fifo: q.fifo, pipe: q.pipe.drop_first() }
    } else {
        QueueModel { fifo: q.fifo.drop_first(), pipe: q.pipe.drop_first().push(q.fifo[0]) }
    }
}

pub struct GeometryQueue {
    fifo: VecDeque<GeometryCommandEntry>,
    pipe: VecDeque<GeometryCommandEntry>,
}

impl View for GeometryQueue {
    type V = QueueModel;

    closed spec fn view(&self) -> QueueModel {
        QueueModel { fifo: self.fifo@, pipe: self.pipe@ }
    }
}

impl GeometryQueue {
    pub fn new() -> (r: GeometryQueue)
        ensures
            r@.wf(),
            r@.fifo.len() == 0,
            r@.pipe.len() == 0,
    {
        GeometryQueue { fifo: VecDeque::with_capacity(FIFO_LEN), pipe: VecDeque::with_capacity(PIPE_LEN) }
    }

    /// Number of entries in the primary buffer.
    pub fn fifo_len(&self) -> (r: usize)
        ensures
            r == self@.fifo.len(),
    {
        self.fifo.len()
    }

    /// Number of entries in the execution buffer.
    pub fn pipe_len(&self) -> (r: usize)
        ensures
            r == self@.pipe.len(),
    {
        self.pipe.len()
    }

    /// Adds an entry behind the others; a full queue refuses it and stays as
    /// it was. Returns whether the entry was taken.
    pub fn enqueue(&mut self, e: GeometryCommandEntry) -> (ok: bool)
        requires
            old(self)@.wf(),
        ensures
            final(self)@.wf(),
            ok == (old(self)@.pending().len() < FIFO_LEN + PIPE_LEN),
            final(self)@ == queue_enqueue(old(self)@, e),
            ok ==> final(self)@.pending() == old(self)@.pending().push(e),
            !ok ==> final(self)@ == old(self)@,
    {
        if self.pipe.len() < PIPE_LEN {
            self.pipe.push_back(e);
            assert(self@.pending() =~= old(self)@.pending().push(e));
            true
        } else if self.fifo.len() < FIFO_LEN {
            self.fifo.push_back(e);
            assert(self@.pending() =~= old(self)@.pending().push(e));
            true
        } else {
            false
        }
    }

    /// Takes out the oldest entry, if there is one.
    pub fn dequeue(&mut self) -> (r: Option<GeometryCommandEntry>)
        requires
            old(self)@.wf(),
        ensures
            final(self)@.wf(),
            final(self)@ == queue_dequeue(old(self)@),
            r is None <==> old(self)@.pending().len() == 0,
            r matches Some(e) ==> e == old(self)@.pending()[0],
            final(self)@.pending() == if old(self)@.pending().len() == 0 {
                old(self)@.pending()
            } else {
                old(self)@.pending().drop_first()
            },
    {
        let r = self.pipe.pop_front();
        if r.is_some() {
            let f = self.fifo.pop_front();
            if let Some(x) = f {
                self.pipe.push_back(x);
            }
        }
        assert(self@ == queue_dequeue(old(self)@)) by {
            if old(self)@.pipe.len() > 0 {
                assert(old(self)@.pipe.drop_first() =~= old(self)@.pipe.subrange(1, old(self)@.pipe.len() as int));
                if old(self)@.fifo.len() > 0 {
                    assert(old(self)@.fifo.drop_first() =~= old(self)@.fifo.subrange(1, old(self)@.fifo.len() as int));
                }
            }
        }
        if r.is_some() {
            assert(self@.pending() =~= old(self)@.pending().drop_first());
        }
        r
    }
}

} // verus!
