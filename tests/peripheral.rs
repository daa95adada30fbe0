use stm32_rcc::{bindings_disjoint, PeripheralBinding, RecordingRegister, Register, RegisterBlock};

fn binding(enable_bit: u32, reset_bit: u32) -> PeripheralBinding<RegisterBlock> {
    PeripheralBinding::new(enable_bit, reset_bit)
}

#[test]
fn enable_then_disable_bit3() {
    let mut bus = RegisterBlock::new(0, 0);
    let p = binding(3, 3);
    p.enable(&mut bus);
    assert_eq!(bus.enable.value(), 0x0000_0008);
    p.disable(&mut bus);
    assert_eq!(bus.enable.value(), 0x0000_0000);
    assert_eq!(bus.enable.write_log(), vec![0x0000_0008, 0x0000_0000]);
    assert_eq!(bus.reset.write_log(), Vec::<u32>::new());
}

#[test]
fn enable_from_zero_gives_single_bit() {
    for e in 0..32u32 {
        let mut bus = RegisterBlock::new(0, 0);
        let p = binding(e, 0);
        p.enable(&mut bus);
        assert_eq!(bus.enable.value(), 1u32 << e);
        p.disable(&mut bus);
        assert_eq!(bus.enable.value(), 0);
    }
}

#[test]
fn enable_and_disable_keep_other_bits() {
    let mut bus = RegisterBlock::new(0xA5A5_A5A5, 0x1234_5678);
    let p = binding(1, 7);
    p.enable(&mut bus);
    assert_eq!(bus.enable.value(), 0xA5A5_A5A7);
    p.disable(&mut bus);
    assert_eq!(bus.enable.value(), 0xA5A5_A5A5);
    let q = binding(0, 7);
    q.disable(&mut bus);
    assert_eq!(bus.enable.value(), 0xA5A5_A5A4);
    assert_eq!(bus.reset.value(), 0x1234_5678);
}

#[test]
fn enable_top_bit() {
    let mut bus = RegisterBlock::new(0x0000_00FF, 0);
    binding(31, 31).enable(&mut bus);
    assert_eq!(bus.enable.value(), 0x8000_00FF);
}

#[test]
fn reset_writes_set_then_clear() {
    let mut bus = RegisterBlock::new(0x0F0F_0F0F, 0x0000_0010);
    let p = binding(2, 5);
    p.reset(&mut bus);
    assert_eq!(bus.reset.write_log(), vec![0x0000_0030, 0x0000_0010]);
    assert_eq!(bus.reset.value(), 0x0000_0010);
    assert_eq!(bus.enable.value(), 0x0F0F_0F0F);
    assert_eq!(bus.enable.write_log(), Vec::<u32>::new());
}

#[test]
fn reset_releases_a_held_peripheral() {
    let mut bus = RegisterBlock::new(0, 1 << 5);
    binding(0, 5).reset(&mut bus);
    assert_eq!(bus.reset.write_log(), vec![1 << 5, 0]);
    assert_eq!(bus.reset.value(), 0);
}

#[test]
fn enable_twice_equals_enable_once() {
    let mut once = RegisterBlock::new(0x0000_0100, 0);
    let mut twice = RegisterBlock::new(0x0000_0100, 0);
    let p = binding(4, 4);
    p.enable(&mut once);
    p.enable(&mut twice);
    p.enable(&mut twice);
    assert_eq!(once.enable.value(), twice.enable.value());
    assert_eq!(twice.enable.value(), 0x0000_0110);
}

#[test]
fn disable_twice_equals_disable_once() {
    let mut once = RegisterBlock::new(0xFFFF_FFFF, 0);
    let mut twice = RegisterBlock::new(0xFFFF_FFFF, 0);
    let p = binding(9, 9);
    p.disable(&mut once);
    p.disable(&mut twice);
    p.disable(&mut twice);
    assert_eq!(once.enable.value(), twice.enable.value());
    assert_eq!(twice.enable.value(), 0xFFFF_FDFF);
}

#[test]
fn sibling_peripherals_do_not_disturb_each_other() {
    let mut bus = RegisterBlock::new(0, 0);
    let a = binding(0, 0);
    let b = binding(17, 17);
    a.enable(&mut bus);
    b.enable(&mut bus);
    a.disable(&mut bus);
    assert_eq!(bus.enable.value(), 1 << 17);
    assert_eq!(b.enable_bit(), 17);
    assert_eq!(b.reset_bit(), 17);
}

#[test]
fn binding_tables_with_distinct_bits_pass() {
    let table = [binding(0, 0), binding(1, 1), binding(2, 5)];
    assert!(bindings_disjoint(&table));
    let empty: [PeripheralBinding<RegisterBlock>; 0] = [];
    assert!(bindings_disjoint(&empty));
}

#[test]
fn binding_tables_with_shared_bits_fail() {
    assert!(!bindings_disjoint(&[binding(0, 0), binding(1, 1), binding(0, 2)]));
    assert!(!bindings_disjoint(&[binding(0, 4), binding(1, 1), binding(2, 4)]));
}

#[test]
fn recording_register_keeps_writes_in_order() {
    let mut r = RecordingRegister::new(7);
    assert_eq!(r.read(), 7);
    r.write(1);
    r.write(2);
    assert_eq!(r.read(), 2);
    assert_eq!(r.value(), 2);
    assert_eq!(r.write_log(), vec![1, 2]);
}
