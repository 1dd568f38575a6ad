use tc37x_hal::reg::{masked_merge, put_field, put_flag, Access, Recorder, RegOp, TraceEntry};

fn read(addr: u32, value: u32) -> TraceEntry {
    TraceEntry { access: Access::Read, addr, width: 4, value }
}

fn write(addr: u32, value: u32) -> TraceEntry {
    TraceEntry { access: Access::Write, addr, width: 4, value }
}

#[test]
fn merge_takes_masked_bits_from_value() {
    assert_eq!(masked_merge(0xAABB_CCDD, 0x1122_3344, 0x00FF_FF00), 0xAA22_33DD);
    assert_eq!(masked_merge(0xFFFF_FFFF, 0, 0), 0xFFFF_FFFF);
    assert_eq!(masked_merge(0x1234_5678, 0xFFFF_FFFF, 0xFFFF_FFFF), 0xFFFF_FFFF);
}

#[test]
fn field_is_shifted_and_cut() {
    assert_eq!(put_field(3, 16, 0x000F_0000), 0x0003_0000);
    assert_eq!(put_field(0x1F, 16, 0x000F_0000), 0x000F_0000);
    assert_eq!(put_field(434, 0, 0xFFF), 434);
    assert_eq!(put_flag(true, 0x8000_0000), 0x8000_0000);
    assert_eq!(put_flag(false, 0x8000_0000), 0);
}

#[test]
fn recorder_starts_with_zeroed_registers() {
    let bus = Recorder::new();
    assert_eq!(bus.word(0xF000_0600), 0);
    assert!(bus.entries().is_empty());
}

#[test]
fn recorder_write_then_read() {
    let mut bus = Recorder::new();
    assert_eq!(bus.perform(RegOp::Write { addr: 0x100, value: 0xCAFE }), 0);
    assert_eq!(bus.perform(RegOp::Read { addr: 0x100 }), 0xCAFE);
    assert_eq!(bus.entries(), &vec![write(0x100, 0xCAFE), read(0x100, 0xCAFE)]);
}

#[test]
fn recorder_modify_reads_then_writes_merged_word() {
    let mut bus = Recorder::new();
    bus.load(0x200, 0xFFFF_0000);
    bus.perform(RegOp::Modify { addr: 0x200, value: 0x0000_00AB, mask: 0x0000_00FF });
    assert_eq!(bus.word(0x200), 0xFFFF_00AB);
    assert_eq!(bus.entries(), &vec![read(0x200, 0xFFFF_0000), write(0x200, 0xFFFF_00AB)]);
}

#[test]
fn recorder_atomic_modify_is_one_write() {
    let mut bus = Recorder::new();
    bus.load(0x200, 0x1111_1111);
    bus.perform(RegOp::ModifyAtomic { addr: 0x200, value: 0x0000_AB00, mask: 0x0000_FF00 });
    assert_eq!(bus.word(0x200), 0x1111_AB11);
    assert_eq!(bus.entries(), &vec![write(0x200, 0x1111_AB11)]);
}

#[test]
fn recorder_wait_sees_the_awaited_bits() {
    let mut bus = Recorder::new();
    bus.load(0x300, 0x0000_0002);
    let seen = bus.perform(RegOp::WaitUntil { addr: 0x300, value: 0x8000_0000, mask: 0x8000_0000 });
    assert_eq!(seen, 0x8000_0002);
    assert_eq!(bus.word(0x300), 0x8000_0002);
    assert_eq!(bus.entries(), &vec![read(0x300, 0x8000_0002)]);
}

#[test]
fn recorder_window_leaves_no_trace() {
    let mut bus = Recorder::new();
    bus.perform(RegOp::ClearEndinit);
    bus.perform(RegOp::SetEndinit);
    assert!(bus.entries().is_empty());
}

#[test]
fn recorder_run_returns_last_observation() {
    let mut bus = Recorder::new();
    let ops = vec![
        RegOp::Write { addr: 0x10, value: 7 },
        RegOp::Modify { addr: 0x10, value: 0x30, mask: 0xF0 },
        RegOp::Read { addr: 0x10 },
    ];
    assert_eq!(bus.run(&ops), 0x37);
    assert_eq!(bus.run(&Vec::new()), 0);
    assert_eq!(
        bus.entries(),
        &vec![write(0x10, 7), read(0x10, 7), write(0x10, 0x37), read(0x10, 0x37)]
    );
}

#[test]
fn recorder_take_log_keeps_registers() {
    let mut bus = Recorder::new();
    bus.perform(RegOp::Write { addr: 0x10, value: 7 });
    let log = bus.take_log();
    assert_eq!(log, vec![write(0x10, 7)]);
    assert!(bus.entries().is_empty());
    assert_eq!(bus.word(0x10), 7);
}
