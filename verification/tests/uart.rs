use tc37x_hal::reg::{Access, Recorder, RegOp, TraceEntry};
use tc37x_hal::uart::module::{Asclin0, Module, ModuleId};
use tc37x_hal::uart::node::{Configurable, Node, Stage};
use tc37x_hal::uart::ports::{
    port_mapping, InputMode, Mode, OutputMode, PadDriver, Port, PortNumber, State,
};
use tc37x_hal::uart::uart_node::{
    BaudRateConfig, BitTimingConfig, ClockSource, FifoConfig, FrameConfig, FrameMode,
    InterruptConfig, NodeConfig, OutputIdx, PinsConfig, Rx, RxSel, Tos, Tx,
};
use tc37x_hal::uart::{
    clock_source_in, enable_uart_module, init_uart, print, set_bit_timing, set_clock_source,
};

const CLC: u32 = 0xF000_0600;
const IOCR: u32 = 0xF000_0604;
const TXFIFOCON: u32 = 0xF000_060C;
const RXFIFOCON: u32 = 0xF000_0610;
const BITCON: u32 = 0xF000_0614;
const FRAMECON: u32 = 0xF000_0618;
const DATCON: u32 = 0xF000_061C;
const BRG: u32 = 0xF000_0620;
const FLAGS: u32 = 0xF000_0634;
const FLAGSSET: u32 = 0xF000_0638;
const FLAGSCLEAR: u32 = 0xF000_063C;
const FLAGSENABLE: u32 = 0xF000_0640;
const TXDATA: u32 = 0xF000_0644;
const CSR: u32 = 0xF000_064C;
const SRC_TX: u32 = 0xF003_8050;
const SRC_RX: u32 = 0xF003_8054;
const SRC_ERR: u32 = 0xF003_8058;

fn read(addr: u32, value: u32) -> TraceEntry {
    TraceEntry { access: Access::Read, addr, width: 4, value }
}

fn write(addr: u32, value: u32) -> TraceEntry {
    TraceEntry { access: Access::Write, addr, width: 4, value }
}

fn modify(addr: u32, value: u32, mask: u32) -> RegOp {
    RegOp::Modify { addr, value, mask }
}

fn atomic(addr: u32, value: u32, mask: u32) -> RegOp {
    RegOp::ModifyAtomic { addr, value, mask }
}

fn wait(addr: u32, value: u32, mask: u32) -> RegOp {
    RegOp::WaitUntil { addr, value, mask }
}

fn clock_off() -> Vec<RegOp> {
    vec![modify(CSR, 0, 0x1F), wait(CSR, 0, 0x8000_0000)]
}

fn clock_on(code: u32) -> Vec<RegOp> {
    vec![modify(CSR, code, 0x1F), wait(CSR, 0x8000_0000, 0x8000_0000)]
}

/// Runs the configuration of a node on a bus and returns every
/// transaction issued.
fn construct(node: &mut Node<Asclin0, Configurable>, bus: &mut Recorder) -> Vec<RegOp> {
    let mut all = Vec::new();
    while !node.is_ready() {
        let ops = node.pending();
        let seen = bus.run(&ops);
        assert!(node.accepts(seen));
        node.resume(seen);
        all.extend(ops);
    }
    all
}

/// Whether any bit timing register is written while the last write of the
/// clock selector chose a clock.
fn timing_written_under_clock(ops: &[RegOp]) -> bool {
    let mut live = false;
    for op in ops {
        match *op {
            RegOp::Modify { addr, value, .. } | RegOp::Write { addr, value }
            | RegOp::ModifyAtomic { addr, value, .. } => {
                if addr == CSR {
                    live = value & 0x1F != 0;
                }
                if (addr == BITCON || addr == BRG) && live {
                    return true;
                }
            }
            _ => {}
        }
    }
    false
}

#[test]
fn defaults_are_the_documented_ones() {
    let config = NodeConfig::default();
    assert_eq!(config.clock_source, ClockSource::FastClock);
    assert_eq!(
        config.baud_rate,
        BaudRateConfig { baud_rate: 115200, prescaler: 1, over_sampling_factor: 3 }
    );
    assert_eq!(
        config.bit_timing,
        BitTimingConfig { median_filter: false, sample_point_position: 3 }
    );
    assert_eq!(
        config.frame,
        FrameConfig {
            idle_delay: 0,
            stop_bit: 1,
            frame_mode: FrameMode::Asc,
            shift_dir: false,
            parity_type: false,
            data_length: 7,
            parity_bit: false,
        }
    );
    assert_eq!(
        config.fifo,
        FifoConfig {
            in_width: 1,
            out_width: 1,
            tx_fifo_interrupt_level: 0,
            rx_fifo_interrupt_level: 0,
            buff_mode: 0,
            tx_fifo_interrupt_mode: 0,
            rx_fifo_interrupt_mode: 0,
        }
    );
    assert_eq!(
        config.interrupt,
        InterruptConfig {
            tx_priority: 0,
            rx_priority: 0,
            er_priority: 0,
            type_of_service: Tos::CPU0,
        }
    );
    assert_eq!(config.error_flags, 0);
    assert!(!config.loop_back);
    assert_eq!(
        config.pins,
        PinsConfig { rx: None, tx: None, pad_driver: PadDriver::CmosAutomotiveSpeed1 }
    );
    assert!(config.is_supported());
    assert_eq!(FrameMode::default(), FrameMode::Asc);
    assert_eq!(ClockSource::default(), ClockSource::FastClock);
}

#[test]
fn codes_of_the_configuration_enums() {
    assert_eq!(u8::from(FrameMode::Initialise), 0);
    assert_eq!(u8::from(FrameMode::Asc), 1);
    assert_eq!(u8::from(FrameMode::Spi), 2);
    assert_eq!(u8::from(FrameMode::Lin), 3);
    assert_eq!(u8::from(ClockSource::NoClock), 0);
    assert_eq!(u8::from(ClockSource::FastClock), 2);
    assert_eq!(u8::from(ClockSource::SlowClock), 4);
    assert_eq!(ClockSource::try_from(0u8), Ok(ClockSource::NoClock));
    assert_eq!(ClockSource::try_from(2u8), Ok(ClockSource::FastClock));
    assert_eq!(ClockSource::try_from(4u8), Ok(ClockSource::SlowClock));
    assert_eq!(ClockSource::try_from(1u8), Err(()));
    assert_eq!(ClockSource::try_from(255u8), Err(()));
    assert_eq!(u8::from(Tos::CPU0), 0);
    assert_eq!(u8::from(Tos::DMA), 1);
    assert_eq!(u8::from(Tos::CPU1), 2);
    assert_eq!(u8::from(Tos::CPU2), 3);
    assert_eq!(u8::from(RxSel::_A), 0);
    assert_eq!(u8::from(RxSel::_D), 3);
    assert_eq!(u8::from(RxSel::_H), 7);
    assert_eq!(OutputIdx::general().0, 0x80);
    assert_eq!(OutputIdx::alt1().0, 0x88);
    assert_eq!(OutputIdx::alt2().0, 0x90);
    assert_eq!(OutputIdx::alt3().0, 0x98);
    assert_eq!(OutputIdx::alt4().0, 0xA0);
    assert_eq!(OutputIdx::alt5().0, 0xA8);
    assert_eq!(OutputIdx::alt6().0, 0xB0);
    assert_eq!(OutputIdx::alt7().0, 0xB8);
    assert_eq!(PadDriver::CmosAutomotiveSpeed4.code(), 3);
    assert_eq!(PadDriver::TtlSpeed1.code(), 8);
    assert_eq!(PadDriver::Ttl3v3speed4.code(), 15);
    assert_eq!(State::NotChanged.code(), 0);
    assert_eq!(State::High.code(), 1);
    assert_eq!(State::Low.code(), 0x1_0000);
    assert_eq!(State::Toggled.code(), 0x1_0001);
    assert_eq!(<Asclin0 as ModuleId>::get_module_id(), 0);
}

#[test]
fn clock_source_is_read_from_the_selector_bits() {
    assert_eq!(clock_source_in(0x0000_0000), Some(ClockSource::NoClock));
    assert_eq!(clock_source_in(0x8000_0002), Some(ClockSource::FastClock));
    assert_eq!(clock_source_in(0x8000_0004), Some(ClockSource::SlowClock));
    assert_eq!(clock_source_in(0x0000_0001), None);
    assert_eq!(clock_source_in(0x0000_0008), None);
    assert_eq!(clock_source_in(0xFFFF_FFE0), Some(ClockSource::NoClock));
}

#[test]
fn unsupported_configurations_are_told_apart() {
    let mut config = NodeConfig::default();
    config.interrupt.type_of_service = Tos::CPU1;
    assert!(!config.interrupt.is_routed_to_primary_core());
    assert!(!config.is_supported());
    let mut config = NodeConfig::default();
    config.baud_rate.prescaler = 0;
    assert!(!config.baud_rate.is_in_range());
    assert!(!config.is_supported());
    let mut config = NodeConfig::default();
    config.baud_rate.over_sampling_factor = 255;
    assert!(!config.is_supported());
    let mut config = NodeConfig::default();
    config.pins.rx = Some(Rx {
        port: PortNumber::_14,
        pin_index: 16,
        select: RxSel::_A,
        input_mode: InputMode::pull_up(),
    });
    assert!(!config.pins.is_in_range());
    assert!(config.is_supported());
}

#[test]
fn module_enable_is_bracketed_by_the_window() {
    let mut ops = Vec::new();
    let module = Module::<Asclin0, _>::new().enable(&mut ops);
    let expected =
        vec![RegOp::ClearEndinit, atomic(CLC, 0, 1), wait(CLC, 0, 1), RegOp::SetEndinit];
    assert_eq!(ops, expected);
    let mut again = Vec::new();
    enable_uart_module(&mut again);
    assert_eq!(again, expected);
    let node = module.take_node(NodeConfig::default());
    assert!(!node.is_ready());
}

#[test]
fn clock_switch_waits_for_the_connected_status() {
    let mut ops = Vec::new();
    set_clock_source(ClockSource::NoClock, &mut ops);
    assert_eq!(ops, clock_off());
    let mut ops = Vec::new();
    set_clock_source(ClockSource::FastClock, &mut ops);
    assert_eq!(ops, clock_on(2));
    let mut ops = Vec::new();
    set_clock_source(ClockSource::SlowClock, &mut ops);
    assert_eq!(ops, clock_on(4));
}

#[test]
fn default_node_construction_trace() {
    let mut bus = Recorder::new();
    let mut node = Node::new(NodeConfig::default());
    construct(&mut node, &mut bus);
    let _node = node.lock_configuration();
    let expected = vec![
        // clock selection, read
        read(CSR, 0),
        // clock off
        read(CSR, 0),
        write(CSR, 0),
        read(CSR, 0),
        // frame control: initialization mode
        read(FRAMECON, 0),
        write(FRAMECON, 0),
        // clock selection, read
        read(CSR, 0),
        // bit timing, with the clock off
        read(CSR, 0),
        write(CSR, 0),
        read(CSR, 0),
        read(BRG, 0),
        write(BRG, 0x0001_01B2),
        read(BITCON, 0),
        write(BITCON, 0x0303_0000),
        read(CSR, 0),
        write(CSR, 0),
        read(CSR, 0),
        // loop back
        read(IOCR, 0),
        write(IOCR, 0),
        // frame shape
        read(FRAMECON, 0),
        write(FRAMECON, 0x0001_0200),
        read(DATCON, 0),
        write(DATCON, 7),
        // FIFOs
        read(TXFIFOCON, 0),
        write(TXFIFOCON, 0x40),
        read(RXFIFOCON, 0),
        write(RXFIFOCON, 0x40),
        // configured clock
        read(CSR, 0),
        write(CSR, 2),
        read(CSR, 0x8000_0002),
        // flags
        read(FLAGSENABLE, 0),
        write(FLAGSENABLE, 0),
        write(FLAGSCLEAR, 0xFFFF_FFFF),
        read(FLAGSENABLE, 0),
        write(FLAGSENABLE, 0x4C05_0000),
        // FIFO enable and flush
        read(RXFIFOCON, 0x40),
        write(RXFIFOCON, 0x43),
        read(TXFIFOCON, 0x40),
        write(TXFIFOCON, 0x43),
        // transmit start flag
        write(FLAGSSET, 0x8000_0000),
    ];
    assert_eq!(bus.entries(), &expected);
    for entry in bus.entries() {
        assert_ne!(entry.addr, SRC_TX);
        assert_ne!(entry.addr, SRC_RX);
        assert_ne!(entry.addr, SRC_ERR);
    }
}

#[test]
fn node_hands_out_three_batches() {
    let mut node = Node::new(NodeConfig::default());
    assert_eq!(node.pending(), vec![RegOp::Read { addr: CSR }]);
    assert!(!node.accepts(1));
    assert!(node.accepts(2));
    node.resume(2);
    let mut second = clock_off();
    second.push(modify(FRAMECON, 0, 0x0003_0000));
    second.push(RegOp::Read { addr: CSR });
    assert_eq!(node.pending(), second);
    assert!(!node.accepts(3));
    node.resume(0);
    assert_eq!(node.pending().len(), 19);
    assert!(node.accepts(0xFFFF_FFFF));
    node.resume(0);
    assert!(node.is_ready());
    assert!(node.pending().is_empty());
    node.resume(0);
    assert!(node.is_ready());
    let stages = [Stage::Start, Stage::Disabling(2), Stage::Timing(0), Stage::Ready];
    assert_eq!(stages.len(), 4);
}

#[test]
fn bit_timing_is_floored_and_restores_the_clock_found() {
    let mut config = NodeConfig::default();
    config.baud_rate = BaudRateConfig { baud_rate: 9600, prescaler: 10, over_sampling_factor: 15 };
    config.bit_timing = BitTimingConfig { median_filter: true, sample_point_position: 0 };
    let mut node = Node::new(config);
    node.resume(0);
    node.resume(0x8000_0004);
    let ops = node.pending();
    let mut expected = clock_off();
    expected.push(modify(BRG, 0x0001_01B2, 0x0FFF_0FFF));
    // prescaler 9, oversampling 15, sample point 1, median filter
    expected.push(modify(BITCON, 0x810F_0009, 0x8F0F_0FFF));
    expected.extend(clock_on(4));
    assert_eq!(&ops[..6], &expected[..]);

    let mut config = NodeConfig::default();
    config.baud_rate.over_sampling_factor = 0;
    let mut node = Node::new(config);
    node.resume(0);
    node.resume(0);
    // oversampling is at least 4, written as 3
    assert_eq!(node.pending()[3], modify(BITCON, 0x0303_0000, 0x8F0F_0FFF));
}

#[test]
fn no_bit_timing_write_while_a_clock_is_selected() {
    for first in [0u32, 0x8000_0002, 0x8000_0004] {
        for second in [0u32, 0x8000_0002, 0x8000_0004] {
            let mut config = NodeConfig::default();
            config.baud_rate =
                BaudRateConfig { baud_rate: 19200, prescaler: 4, over_sampling_factor: 7 };
            config.bit_timing = BitTimingConfig { median_filter: true, sample_point_position: 5 };
            config.clock_source = ClockSource::SlowClock;
            let mut node = Node::new(config);
            let mut all = Vec::new();
            all.extend(node.pending());
            node.resume(first);
            all.extend(node.pending());
            node.resume(second);
            all.extend(node.pending());
            node.resume(0);
            assert!(node.is_ready());
            assert!(!timing_written_under_clock(&all));
            assert!(all.iter().any(|op| *op == modify(BITCON, 0x8507_0003, 0x8F0F_0FFF)));
        }
    }
    assert!(timing_written_under_clock(&[modify(CSR, 2, 0x1F), modify(BRG, 1, 1)]));
}

#[test]
fn interrupt_routing_is_gated_by_priority() {
    let mut config = NodeConfig::default();
    config.interrupt.rx_priority = 5;
    config.interrupt.er_priority = 9;
    let mut bus = Recorder::new();
    let mut node = Node::new(config);
    let all = construct(&mut node, &mut bus);
    let routed: Vec<RegOp> = all
        .iter()
        .filter(|op| {
            matches!(**op, RegOp::Modify { addr, .. } if addr == SRC_RX || addr == SRC_TX || addr == SRC_ERR)
        })
        .cloned()
        .collect();
    assert_eq!(
        routed,
        vec![
            modify(SRC_RX, 0x0200_0005, 0x0200_38FF),
            modify(SRC_RX, 0x400, 0x400),
            modify(SRC_ERR, 0x0200_0009, 0x0200_38FF),
            modify(SRC_ERR, 0x400, 0x400),
        ]
    );
    let start = all.iter().position(|op| *op == modify(SRC_RX, 0x0200_0005, 0x0200_38FF)).unwrap();
    assert_eq!(
        &all[start..start + 6],
        &[
            modify(SRC_RX, 0x0200_0005, 0x0200_38FF),
            modify(FLAGSENABLE, 0x1000_0000, 0x1000_0000),
            modify(SRC_RX, 0x400, 0x400),
            modify(SRC_ERR, 0x0200_0009, 0x0200_38FF),
            modify(FLAGSENABLE, 0x0001_0000, 0x0001_0000),
            modify(SRC_ERR, 0x400, 0x400),
        ]
    );
    assert_eq!(bus.word(SRC_RX), 0x0200_0405);
    assert_eq!(bus.word(SRC_TX), 0);
    assert_eq!(bus.word(SRC_ERR), 0x0200_0409);
    assert_eq!(bus.word(FLAGSENABLE), 0x5C05_0000);

    let mut config = NodeConfig::default();
    config.interrupt.tx_priority = 255;
    let mut node = Node::new(config);
    let all = construct(&mut node, &mut Recorder::new());
    let start = all.iter().position(|op| *op == modify(SRC_TX, 0x0200_00FF, 0x0200_38FF)).unwrap();
    assert_eq!(all[start + 1], modify(FLAGSENABLE, 0x8000_0000, 0x8000_0000));
    assert_eq!(all[start + 2], modify(SRC_TX, 0x400, 0x400));
}

#[test]
fn frame_and_fifo_fields_are_placed_and_cut() {
    let mut config = NodeConfig::default();
    config.loop_back = true;
    config.frame = FrameConfig {
        idle_delay: 7,
        stop_bit: 2,
        frame_mode: FrameMode::Lin,
        shift_dir: true,
        parity_type: true,
        data_length: 15,
        parity_bit: true,
    };
    config.fifo = FifoConfig {
        in_width: 3,
        out_width: 2,
        tx_fifo_interrupt_level: 15,
        rx_fifo_interrupt_level: 16,
        buff_mode: 0,
        tx_fifo_interrupt_mode: 1,
        rx_fifo_interrupt_mode: 2,
    };
    let mut node = Node::new(config);
    node.resume(0);
    node.resume(0);
    let ops = node.pending();
    assert_eq!(ops[6], modify(IOCR, 0x1000_0000, 0x1000_0000));
    assert_eq!(ops[7], modify(FRAMECON, 0xD003_05C0, 0xD003_0FC0));
    assert_eq!(ops[8], modify(DATCON, 15, 15));
    assert_eq!(ops[9], modify(TXFIFOCON, 0x0FD0, 0x0FF0));
    // the receive level 16 does not fit its four bits
    assert_eq!(ops[10], modify(RXFIFOCON, 0x00A0, 0x0FF0));
}

#[test]
fn send_blocking_waits_clears_and_writes_per_byte() {
    let mut node = Node::new(NodeConfig::default());
    construct(&mut node, &mut Recorder::new());
    let node = node.lock_configuration();
    let mut ops = Vec::new();
    node.send_blocking(&[0x41, 0xFF], &mut ops);
    assert_eq!(
        ops,
        vec![
            wait(FLAGS, 0x8000_0000, 0x8000_0000),
            atomic(FLAGSCLEAR, 0x8000_0000, 0x8000_0000),
            atomic(TXDATA, 0x41, 0xFFFF_FFFF),
            wait(FLAGS, 0x8000_0000, 0x8000_0000),
            atomic(FLAGSCLEAR, 0x8000_0000, 0x8000_0000),
            atomic(TXDATA, 0xFF, 0xFFFF_FFFF),
        ]
    );
    let mut ops = Vec::new();
    node.send_blocking(&[], &mut ops);
    assert!(ops.is_empty());
}

#[test]
fn print_sends_each_character_as_a_word() {
    let mut ops = Vec::new();
    print("Hi\u{e9}", &mut ops);
    assert_eq!(ops.len(), 9);
    assert_eq!(ops[2], atomic(TXDATA, 0x48, 0xFFFF_FFFF));
    assert_eq!(ops[5], atomic(TXDATA, 0x69, 0xFFFF_FFFF));
    assert_eq!(ops[8], atomic(TXDATA, 0xE9, 0xFFFF_FFFF));
    assert_eq!(ops[0], wait(FLAGS, 0x8000_0000, 0x8000_0000));
    assert_eq!(ops[1], atomic(FLAGSCLEAR, 0x8000_0000, 0x8000_0000));
    let mut ops = Vec::new();
    print("", &mut ops);
    assert!(ops.is_empty());
}

#[test]
fn uart_initialization_in_two_halves() {
    let mut config = NodeConfig::default();
    config.baud_rate.prescaler = 3;
    let mut ops = Vec::new();
    let pending = init_uart(config, &mut ops);
    let mut expected =
        vec![RegOp::ClearEndinit, atomic(CLC, 0, 1), wait(CLC, 0, 1), RegOp::SetEndinit];
    expected.extend(clock_off());
    expected.push(modify(FRAMECON, 0, 0x0003_0000));
    expected.push(modify(BITCON, 2, 0x0FFF));
    expected.extend(clock_on(2));
    expected.push(RegOp::Read { addr: CSR });
    assert_eq!(ops, expected);
    let mut bus = Recorder::new();
    let seen = bus.run(&ops);
    assert_eq!(seen, 0x8000_0002);

    let mut rest = Vec::new();
    pending.finish(seen, &mut rest);
    let mut expected = clock_off();
    expected.push(modify(BRG, 0x0001_01B2, 0x0FFF_0FFF));
    expected.push(modify(BITCON, 0x0303_0000, 0x8F0F_0000));
    expected.extend(clock_on(2));
    expected.extend(clock_off());
    expected.push(modify(IOCR, 0, 0x1000_0000));
    expected.push(modify(FRAMECON, 0x0001_0200, 0xD003_0FC0));
    expected.push(modify(DATCON, 7, 15));
    expected.push(modify(TXFIFOCON, 0x40, 0x0FF0));
    expected.push(modify(RXFIFOCON, 0x40, 0x0FF0));
    expected.extend(clock_on(2));
    expected.push(modify(FLAGSENABLE, 0, 0xFFFF_FFFF));
    expected.push(atomic(FLAGSCLEAR, 0xFFFF_FFFF, 0xFFFF_FFFF));
    expected.push(modify(FLAGSENABLE, 0x4C05_0000, 0x4C05_0000));
    expected.push(modify(RXFIFOCON, 3, 3));
    expected.push(modify(TXFIFOCON, 3, 3));
    expected.push(atomic(FLAGSSET, 0x8000_0000, 0x8000_0000));
    assert_eq!(rest, expected);
    let mut all = ops;
    all.extend(rest);
    assert!(!timing_written_under_clock(&all));
    bus.run(&all[12..].to_vec());
    assert_eq!(bus.word(BITCON), 0x0303_0002);
    assert_eq!(bus.word(CSR), 0x8000_0002);
}

#[test]
fn bit_timing_of_the_module_keeps_the_prescaler() {
    let mut config = NodeConfig::default();
    config.bit_timing.median_filter = true;
    let mut ops = Vec::new();
    set_bit_timing(&config, 0, &mut ops);
    let mut expected = clock_off();
    expected.push(modify(BRG, 0x0001_01B2, 0x0FFF_0FFF));
    expected.push(modify(BITCON, 0x8303_0000, 0x8F0F_0000));
    expected.extend(clock_off());
    assert_eq!(ops, expected);
}

#[test]
fn pins_are_routed_rx_before_tx() {
    let pins = PinsConfig {
        rx: Some(Rx {
            port: PortNumber::_14,
            pin_index: 1,
            select: RxSel::_B,
            input_mode: InputMode::pull_up(),
        }),
        tx: Some(Tx {
            port: PortNumber::_14,
            pin_index: 0,
            select: OutputIdx::alt2(),
            output_mode: OutputMode::push_pull(),
        }),
        pad_driver: PadDriver::CmosAutomotiveSpeed2,
    };
    let expected = vec![
        atomic(0xF003_AE10, 0x1000, 0xFF00),
        RegOp::ClearEndinit,
        atomic(0xF003_AE40, 0x10, 0xF0),
        RegOp::SetEndinit,
        modify(IOCR, 1, 7),
        atomic(0xF003_AE10, 0x90, 0xFF),
        RegOp::ClearEndinit,
        atomic(0xF003_AE40, 0x1, 0xF),
        RegOp::SetEndinit,
    ];
    let mut ops = Vec::new();
    port_mapping(&pins, &mut ops);
    assert_eq!(ops, expected);
    let node = Node::new(NodeConfig::default());
    let mut ops = Vec::new();
    node.set_pins(pins, &mut ops);
    assert_eq!(ops, expected);
    let mut ops = Vec::new();
    node.set_ports(pins, &mut ops);
    assert_eq!(ops, expected);
    let mut ops = Vec::new();
    node.set_rx_input(RxSel::_G, &mut ops);
    assert_eq!(ops, vec![modify(IOCR, 6, 7)]);
    let mut ops = Vec::new();
    port_mapping(&PinsConfig::default(), &mut ops);
    assert!(ops.is_empty());
}

#[test]
fn port_operations_address_the_right_register() {
    let port = Port::new(PortNumber::_33);
    let mut ops = Vec::new();
    port.set_pin_state(4, State::High, &mut ops);
    port.set_pin_low(4, &mut ops);
    port.toogle_pin(15, &mut ops);
    port.set_pin_state(3, State::NotChanged, &mut ops);
    assert_eq!(
        ops,
        vec![
            RegOp::Write { addr: 0xF003_C104, value: 1 << 4 },
            RegOp::Write { addr: 0xF003_C104, value: 1 << 20 },
            RegOp::Write { addr: 0xF003_C104, value: 0x8000_8000 },
            RegOp::Write { addr: 0xF003_C104, value: 0 },
        ]
    );
    let mut ops = Vec::new();
    port.set_pin_mode_output(9, OutputMode::open_drain(), OutputIdx::alt7(), &mut ops);
    port.set_pin_mode_input(10, InputMode::pull_down(), &mut ops);
    port.set_pin_mode_input(11, InputMode::no_pull_device(), &mut ops);
    port.set_pin_mode(12, Mode::from((OutputMode::none(), OutputIdx::general())), &mut ops);
    port.set_pin_pad_driver(9, PadDriver::Ttl3v3speed1, &mut ops);
    assert_eq!(
        ops,
        vec![
            atomic(0xF003_C118, 0xF800, 0xFF00),
            atomic(0xF003_C118, 0x0008_0000, 0x00FF_0000),
            atomic(0xF003_C118, 0, 0xFF00_0000),
            atomic(0xF003_C11C, 0x80, 0xFF),
            RegOp::ClearEndinit,
            atomic(0xF003_C144, 0xC0, 0xF0),
            RegOp::SetEndinit,
        ]
    );
}

#[test]
fn supervisor_port_hands_the_pin_over_first() {
    let port = Port::new(PortNumber::_40);
    let mut ops = Vec::new();
    port.set_pin_mode(3, Mode::from(InputMode::no_pull_device()), &mut ops);
    assert_eq!(
        ops,
        vec![
            RegOp::ClearEndinit,
            modify(0xF003_C860, 0, 1 << 3),
            RegOp::SetEndinit,
            atomic(0xF003_C810, 0, 0xFF00_0000),
        ]
    );
    let mut bus = Recorder::new();
    bus.load(0xF003_C860, 0xFFFF);
    bus.run(&ops);
    assert_eq!(bus.word(0xF003_C860), 0xFFF7);
}
