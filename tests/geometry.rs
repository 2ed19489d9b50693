use nds_core::engine3d::{Engine3D, FIFO_IRQ_DELAY};
use nds_core::geometry::{GeometryCommandEntry, GeometryQueue, FIFO_LEN, PIPE_LEN};
use nds_core::gpu::GPU;
use nds_core::interrupt::{HBLANK, VBLANK};
use nds_core::matrix::Matrix;
use nds_core::matrix_engine::MatrixMode;
use nds_core::scheduler::{Event, Scheduler};

fn other(n: u32) -> GeometryCommandEntry {
    GeometryCommandEntry::Other { opcode: 0x23, params: vec![n] }
}

fn status_count(e: &Engine3D) -> u32 {
    let b2 = e.read_register(0x0400_0602) as u32;
    let b3 = e.read_register(0x0400_0603) as u32;
    b2 | ((b3 & 1) << 8)
}

#[test]
fn fourth_entry_fills_pipe_fifth_goes_to_fifo() {
    let mut q = GeometryQueue::new();
    for i in 0..3 {
        assert!(q.enqueue(other(i)));
    }
    assert_eq!((q.fifo_len(), q.pipe_len()), (0, 3));
    assert!(q.enqueue(other(3)));
    assert_eq!((q.fifo_len(), q.pipe_len()), (0, 4));
    assert!(q.enqueue(other(4)));
    assert_eq!((q.fifo_len(), q.pipe_len()), (1, 4));
}

#[test]
fn full_queue_refuses_entries() {
    let mut q = GeometryQueue::new();
    for i in 0..(FIFO_LEN + PIPE_LEN) {
        assert!(q.enqueue(other(i as u32)));
    }
    assert!(!q.enqueue(other(999)));
    assert_eq!((q.fifo_len(), q.pipe_len()), (FIFO_LEN, PIPE_LEN));
}

#[test]
fn entries_come_out_in_order_and_pipe_refills() {
    let mut q = GeometryQueue::new();
    for i in 0..6 {
        q.enqueue(other(i));
    }
    for i in 0..6 {
        match q.dequeue() {
            Some(GeometryCommandEntry::Other { params, .. }) => assert_eq!(params, vec![i]),
            _ => panic!("expected entry {}", i),
        }
        let left = 5 - i as usize;
        assert_eq!(q.pipe_len(), left.min(4));
        assert_eq!(q.fifo_len(), left.saturating_sub(4));
    }
    assert!(q.dequeue().is_none());
}

#[test]
fn status_count_tracks_interleaved_operations() {
    let mut e = Engine3D::new();
    let mut s = Scheduler::new();
    let mut pending: u32 = 0;
    let steps = [3, -1, 5, -2, 1, -7, -1, 300, -20];
    for step in steps {
        if step > 0 {
            for i in 0..step {
                if e.enqueue(&mut s, other(i as u32)) {
                    pending += 1;
                }
            }
        } else {
            for _ in 0..(-step) {
                if e.dequeue_and_execute(&mut s).is_some() {
                    pending -= 1;
                }
            }
        }
        assert_eq!(status_count(&e), pending);
        assert_eq!((e.gxstat() >> 27) & 1, (pending > 0) as u32);
    }
    assert_eq!(pending, 240);
}

#[test]
fn executed_commands_reach_the_matrix_engine() {
    let mut e = Engine3D::new();
    let mut s = Scheduler::new();
    let mut m = Matrix::identity();
    m.m[3] = 7;
    e.enqueue(&mut s, GeometryCommandEntry::SetMode(MatrixMode::Position));
    e.enqueue(&mut s, GeometryCommandEntry::LoadMatrix(m));
    e.enqueue(&mut s, GeometryCommandEntry::Push);
    e.enqueue(&mut s, GeometryCommandEntry::LoadIdentity);
    e.enqueue(&mut s, other(1));
    e.enqueue(&mut s, GeometryCommandEntry::Pop(1));
    for _ in 0..4 {
        e.dequeue_and_execute(&mut s);
    }
    assert_eq!(e.matrices().position().sp(), 1);
    assert_eq!(e.matrices().position().current().m, Matrix::identity().m);
    assert!(matches!(e.dequeue_and_execute(&mut s), Some(GeometryCommandEntry::Other { .. })));
    e.dequeue_and_execute(&mut s);
    assert_eq!(e.matrices().position().current().m, m.m);
    assert_eq!(e.matrices().position().sp(), 0);
    assert!(e.dequeue_and_execute(&mut s).is_none());
}

#[test]
fn status_reports_stack_levels_and_sticky_flags() {
    let mut e = Engine3D::new();
    let mut s = Scheduler::new();
    e.enqueue(&mut s, GeometryCommandEntry::Push);
    e.enqueue(&mut s, GeometryCommandEntry::Push);
    e.enqueue(&mut s, GeometryCommandEntry::Pop(5));
    for _ in 0..3 {
        e.dequeue_and_execute(&mut s);
    }
    let st = e.gxstat();
    assert_eq!((st >> 13) & 1, 0);
    assert_eq!((st >> 15) & 1, 1);
    assert_eq!((st >> 14) & 1, 1);
    e.write_register(&mut s, 0x0400_0601, 0x80);
    assert_eq!((e.gxstat() >> 15) & 1, 0);
    assert_eq!((e.gxstat() >> 14) & 1, 1);
    e.write_register(&mut s, 0x0400_0601, 0x40);
    assert_eq!((e.gxstat() >> 14) & 1, 0);
    e.enqueue(&mut s, GeometryCommandEntry::SetMode(MatrixMode::Vector));
    e.enqueue(&mut s, GeometryCommandEntry::Push);
    e.dequeue_and_execute(&mut s);
    e.dequeue_and_execute(&mut s);
    assert_eq!((e.gxstat() >> 8) & 0x1f, 1);
    assert_eq!(e.read_register(0x0400_0601), 0x01);
}

#[test]
fn status_write_ignores_derived_bits() {
    let mut e = Engine3D::new();
    let mut s = Scheduler::new();
    let before = e.gxstat();
    e.write_register(&mut s, 0x0400_0600, 0xff);
    e.write_register(&mut s, 0x0400_0602, 0xff);
    assert_eq!(e.gxstat(), before);
    assert_eq!(before, (1 << 25) | (1 << 26));
}

#[test]
fn fifo_interrupt_scheduled_when_condition_arises() {
    let mut e = Engine3D::new();
    let mut s = Scheduler::new();
    // trigger on "at most half full": holds at once on an empty queue
    e.write_register(&mut s, 0x0400_0603, 0x80);
    assert_eq!(e.read_register(0x0400_0603) >> 6, 2);
    let ev = s.take_scheduled();
    assert_eq!(ev.len(), 1);
    assert_eq!(ev[0].event, Event::GeometryFifoInterrupt);
    assert_eq!(ev[0].delay, FIFO_IRQ_DELAY);
    let token = ev[0].token;
    // filling past half makes it go away, and the delivery is cancelled
    for i in 0..(4 + 129) {
        e.enqueue(&mut s, other(i));
    }
    assert_eq!(s.take_cancelled(), vec![token]);
    assert!(s.take_scheduled().is_empty());
    // draining back to half raises it again, once
    e.dequeue_and_execute(&mut s);
    let ev = s.take_scheduled();
    assert_eq!(ev.len(), 1);
    assert_ne!(ev[0].token, token);
    e.dequeue_and_execute(&mut s);
    assert!(s.take_scheduled().is_empty());
}

#[test]
fn fifo_interrupt_on_empty_and_never() {
    let mut e = Engine3D::new();
    let mut s = Scheduler::new();
    e.enqueue(&mut s, other(0));
    for i in 0..5 {
        e.enqueue(&mut s, other(i));
    }
    e.write_register(&mut s, 0x0400_0603, 0x40);
    assert!(s.take_scheduled().is_empty());
    e.dequeue_and_execute(&mut s);
    e.dequeue_and_execute(&mut s);
    assert_eq!(s.take_scheduled().len(), 1);
    e.write_register(&mut s, 0x0400_0603, 0x00);
    assert_eq!(s.take_cancelled().len(), 1);
    e.write_register(&mut s, 0x0400_0603, 0xc0);
    assert!(s.take_scheduled().is_empty());
}

#[test]
fn framebuffer_available_when_not_rendering() {
    let e = Engine3D::new();
    let fb = e.framebuffer().expect("not rendering");
    assert_eq!(fb.len(), 256 * 192);
    assert!(fb.iter().all(|p| *p == 0));
}

#[test]
fn dot_clock_raises_blanking_interrupts() {
    let mut g = GPU::new();
    let mut hblanks = 0;
    let mut vblanks = 0;
    for _ in 0..(355 * 263) {
        let r = g.emulate_dot();
        if r.bits() == HBLANK {
            hblanks += 1;
            assert_eq!(g.dot, 256);
        } else if r.bits() == VBLANK {
            vblanks += 1;
            assert_eq!((g.dot, g.line), (0, 192));
        } else {
            assert_eq!(r.bits(), 0);
        }
    }
    assert_eq!((hblanks, vblanks), (263, 1));
    assert_eq!((g.dot, g.line), (0, 0));
}
