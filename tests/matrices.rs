use nds_core::matrix::{Matrix, ONE};
use nds_core::matrix_engine::{MatrixEngine, MatrixMode, POSITION_DEPTH, PROJECTION_DEPTH, TEXTURE_DEPTH};

fn diagonal(v: i32) -> Matrix {
    let mut m = Matrix::empty();
    for i in 0..4 {
        m.m[5 * i] = v;
    }
    m
}

fn sample() -> Matrix {
    let mut m = Matrix::empty();
    for k in 0..16 {
        m.m[k] = (k as i32 + 1) * ONE;
    }
    m
}

#[test]
fn identity_times_matrix_is_matrix() {
    let m = sample();
    assert_eq!(Matrix::identity().multiply(&m).m, m.m);
    assert_eq!(m.multiply(&Matrix::identity()).m, m.m);
}

#[test]
fn fixed_point_product_exact_values() {
    let r = diagonal(2 * ONE).multiply(&diagonal(3 * ONE));
    assert_eq!(r.m, diagonal(6 * ONE).m);
    // (1.5 * 0.5) = 0.75
    let r = diagonal(ONE + ONE / 2).multiply(&diagonal(ONE / 2));
    assert_eq!(r.m[0], 3 * ONE / 4);
    // the shift rounds toward minus infinity: -1/4096 * 1/4096 -> -1/4096
    let r = diagonal(-1).multiply(&diagonal(1));
    assert_eq!(r.m[0], -1);
    // row 0 of sample times column 1 of sample: 1*2 + 2*6 + 3*10 + 4*14 = 100
    let r = sample().multiply(&sample());
    assert_eq!(r.m[1], 100 * ONE);
}

#[test]
fn multiply_puts_operand_on_the_left() {
    let mut e = MatrixEngine::new();
    e.set_mode(MatrixMode::Position);
    e.load(sample());
    let mut t = Matrix::identity();
    t.m[1] = ONE; // entry (0, 1)
    e.multiply(&t);
    let expected = t.multiply(&sample());
    assert_eq!(e.position().current().m, expected.m);
    assert_ne!(expected.m, sample().multiply(&t).m);
}

#[test]
fn push_to_capacity_then_overflow_in_every_mode() {
    for (mode, cap) in [
        (MatrixMode::Projection, PROJECTION_DEPTH),
        (MatrixMode::Position, POSITION_DEPTH),
        (MatrixMode::Vector, POSITION_DEPTH),
        (MatrixMode::Texture, TEXTURE_DEPTH),
    ] {
        let mut e = MatrixEngine::new();
        e.set_mode(mode);
        for i in 0..cap {
            assert!(e.push());
            assert!(!e.overflow());
            let sp = match mode {
                MatrixMode::Projection => e.projection().sp(),
                MatrixMode::Texture => e.texture().sp(),
                _ => e.position().sp(),
            };
            assert_eq!(sp, i + 1);
        }
        assert!(!e.push());
        assert!(e.overflow());
        let sp = match mode {
            MatrixMode::Projection => e.projection().sp(),
            MatrixMode::Texture => e.texture().sp(),
            _ => e.position().sp(),
        };
        assert_eq!(sp, cap);
    }
}

#[test]
fn position_and_vector_share_one_pointer() {
    let mut e = MatrixEngine::new();
    e.set_mode(MatrixMode::Position);
    e.push();
    e.push();
    assert_eq!(e.position().sp(), 2);
    assert_eq!(e.vector().sp(), 2);
    e.set_mode(MatrixMode::Vector);
    e.pop(1);
    assert_eq!(e.position().sp(), 1);
    assert_eq!(e.vector().sp(), 1);
}

#[test]
fn pop_restores_saved_matrix() {
    let mut e = MatrixEngine::new();
    e.set_mode(MatrixMode::Vector);
    e.load(sample());
    assert!(e.push());
    e.load_identity();
    assert_eq!(e.position().current().m, Matrix::identity().m);
    assert_eq!(e.vector().current().m, Matrix::identity().m);
    assert!(e.pop(1));
    assert_eq!(e.position().current().m, sample().m);
    assert_eq!(e.vector().current().m, sample().m);
    assert!(!e.underflow());
}

#[test]
fn pop_past_bottom_sets_underflow_and_keeps_matrix() {
    let mut e = MatrixEngine::new();
    e.set_mode(MatrixMode::Position);
    e.push();
    e.push();
    e.load(sample());
    assert!(!e.pop(3));
    assert!(e.underflow());
    assert_eq!(e.position().sp(), 0);
    assert_eq!(e.position().current().m, sample().m);
    assert!(!e.overflow());
}

#[test]
fn store_and_restore_by_slot() {
    let mut e = MatrixEngine::new();
    e.set_mode(MatrixMode::Position);
    e.load(sample());
    assert!(e.store(5));
    e.load_identity();
    assert!(e.restore(5));
    assert_eq!(e.position().current().m, sample().m);
    assert_eq!(e.position().sp(), 0);
    assert!(!e.store(31));
    assert!(e.overflow());
    e.clear_flags(true, false);
    assert!(!e.overflow());
    e.set_mode(MatrixMode::Texture);
    assert!(!e.restore(1));
    assert!(e.overflow());
}

#[test]
fn projection_load_leaves_other_classes() {
    let mut e = MatrixEngine::new();
    e.load(sample());
    assert_eq!(e.mode(), MatrixMode::Projection);
    assert_eq!(e.projection().current().m, sample().m);
    assert_eq!(e.position().current().m, Matrix::empty().m);
    assert_eq!(e.texture().current().m, Matrix::empty().m);
}
