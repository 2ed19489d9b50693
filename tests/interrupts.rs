use nds_core::interrupt::{
    InterruptController, InterruptEnable, InterruptMasterEnable, InterruptRequest, HBLANK,
    MASTER_ENABLE, TIMER0_OVERFLOW, VBLANK,
};

fn controller(master: bool, enable: bool, request: bool) -> InterruptController {
    let mut c = InterruptController::new();
    c.master_enable = InterruptMasterEnable::from_bits_truncate(if master { MASTER_ENABLE } else { 0 });
    c.enable = InterruptEnable::from_bits_truncate(if enable { VBLANK } else { 0 });
    c.request = InterruptRequest::from_bits_truncate(if request { VBLANK } else { 0 });
    c
}

#[test]
fn requested_table_all_eight_combinations() {
    for master in [false, true] {
        for enable in [false, true] {
            for request in [false, true] {
                let c = controller(master, enable, request);
                assert_eq!(c.interrupts_requested(), master && enable && request);
            }
        }
    }
}

#[test]
fn request_without_matching_enable_is_not_taken() {
    let mut c = controller(true, true, false);
    c.request.insert(HBLANK);
    assert!(!c.interrupts_requested());
}

#[test]
fn vblank_request_and_acknowledge() {
    let mut c = InterruptController::new();
    c.enable = InterruptEnable::from_bits_truncate(VBLANK);
    c.master_enable = InterruptMasterEnable::from_bits_truncate(MASTER_ENABLE);
    assert!(!c.interrupts_requested());
    c.request.insert(VBLANK);
    assert!(c.interrupts_requested());
    c.request.write(0, VBLANK as u8);
    assert_eq!(c.request.bits(), 0);
    assert!(!c.interrupts_requested());
}

#[test]
fn request_write_clears_only_written_ones() {
    let mut r = InterruptRequest::from_bits_truncate(VBLANK | HBLANK | TIMER0_OVERFLOW);
    r.write(0, HBLANK as u8);
    assert_eq!(r.bits(), VBLANK | TIMER0_OVERFLOW);
    r.write(0, 0);
    assert_eq!(r.bits(), VBLANK | TIMER0_OVERFLOW);
}

#[test]
fn enable_write_masks_to_named_sources() {
    let mut e = InterruptEnable::empty();
    e.write(1, 0xff);
    assert_eq!(e.bits(), 0x3f00);
    e.write(0, 0xff);
    assert_eq!(e.bits(), 0x3fff);
    e.write(3, 0xff);
    assert_eq!(e.bits(), 0x3fff);
    assert_eq!(e.read(1), 0x3f);
    assert_eq!(e.read(3), 0);
    e.write(1, 0x01);
    assert_eq!(e.bits(), 0x01ff);
}

#[test]
fn master_enable_keeps_one_bit() {
    let mut m = InterruptMasterEnable::empty();
    m.write(0, 0xff);
    assert_eq!(m.bits(), 1);
    m.write(1, 0xff);
    assert_eq!(m.bits(), 1);
    m.write(0, 0xfe);
    assert_eq!(m.bits(), 0);
}

#[test]
fn request_insert_ignores_undefined_bits() {
    let mut r = InterruptRequest::empty();
    r.insert(0xffff_0000 | VBLANK);
    assert_eq!(r.bits(), VBLANK);
    assert_eq!(r.read(0), 1);
}
