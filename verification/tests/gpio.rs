use tc37x_hal::gpio::block::{iocr_addr_of, lane_shift_of, mode_write_op};
use tc37x_hal::gpio::convert::PinMode;
use tc37x_hal::gpio::dynamic::{Dynamic, PinModeError};
use tc37x_hal::gpio::erased::{ErasedPin, PinMismatch};
use tc37x_hal::gpio::partially_erased::PartiallyErasedPin;
use tc37x_hal::gpio::tc37x::gpio00::Port00;
use tc37x_hal::gpio::tc37x::gpio01::Port01;
use tc37x_hal::gpio::{
    port_base_of, Alternate, Analog, GpioExt, Input, OpenDrain, Output, Pin, PinExt, PinState,
    Pull, PushPull, ReadPin, Speed,
};
use tc37x_hal::reg::{Recorder, RegOp};

const PORT00: u32 = 0xF003_A000;
const PORT01: u32 = 0xF003_A100;

fn atomic(addr: u32, value: u32, mask: u32) -> RegOp {
    RegOp::ModifyAtomic { addr, value, mask }
}

fn level(addr: u32, value: u32) -> RegOp {
    RegOp::Write { addr, value }
}

#[test]
fn mode_codes() {
    assert_eq!(<Input as PinMode>::MODE, 0x00);
    assert_eq!(<Analog as PinMode>::MODE, 0x00);
    assert_eq!(<Output<PushPull> as PinMode>::MODE, 0x80);
    assert_eq!(<Output<OpenDrain> as PinMode>::MODE, 0xC0);
    assert_eq!(<Alternate<1, PushPull> as PinMode>::MODE, 0x88);
    assert_eq!(<Alternate<7, PushPull> as PinMode>::MODE, 0xB8);
    assert_eq!(<Alternate<2, OpenDrain> as PinMode>::MODE, 0xD0);
}

#[test]
fn register_layout_of_a_pin() {
    assert_eq!(port_base_of(0), PORT00);
    assert_eq!(port_base_of(1), PORT01);
    assert_eq!(lane_shift_of(0), 0);
    assert_eq!(lane_shift_of(5), 8);
    assert_eq!(lane_shift_of(15), 24);
    assert_eq!(iocr_addr_of(PORT00, 0), 0xF003_A010);
    assert_eq!(iocr_addr_of(PORT00, 5), 0xF003_A014);
    assert_eq!(iocr_addr_of(PORT00, 11), 0xF003_A018);
    assert_eq!(iocr_addr_of(PORT01, 15), 0xF003_A11C);
    assert_eq!(mode_write_op(PORT00, 6, 0x80), atomic(0xF003_A014, 0x0080_0000, 0x00FF_0000));
}

#[test]
fn split_hands_out_sixteen_input_pins() {
    let parts = Port00.split();
    assert_eq!(parts.p00_0.pin_id(), 0);
    assert_eq!(parts.p00_15.pin_id(), 15);
    assert_eq!(parts.p00_7.port_id(), 0);
    let other = Port01.split();
    assert_eq!(other.p01_3.port_id(), 1);
    assert_eq!(other.p01_3.pin_id(), 3);
    assert_eq!(other.p01_3.block(), PORT01);
}

#[test]
fn push_pull_output_sets_level_low_before_mode() {
    let parts = Port00.split();
    let mut ops = Vec::new();
    let _led = parts.p00_5.into_push_pull_output(&mut ops);
    assert_eq!(
        ops,
        vec![level(0xF003_A004, 1 << 21), atomic(0xF003_A014, 0x0000_8000, 0x0000_FF00)]
    );
}

#[test]
fn open_drain_output_sets_level_low_before_mode() {
    let parts = Port00.split();
    let mut ops = Vec::new();
    let _pin = parts.p00_0.into_open_drain_output(&mut ops);
    assert_eq!(ops, vec![level(0xF003_A004, 1 << 16), atomic(0xF003_A010, 0xC0, 0xFF)]);
}

#[test]
fn output_in_state_high_sets_level_high_before_mode() {
    let parts = Port01.split();
    let mut ops = Vec::new();
    let _pin = parts.p01_9.into_push_pull_output_in_state(PinState::High, &mut ops);
    assert_eq!(ops, vec![level(0xF003_A104, 1 << 9), atomic(0xF003_A118, 0x8000, 0xFF00)]);
    let parts = Port01.split();
    let mut ops = Vec::new();
    let _pin = parts.p01_9.into_open_drain_output_in_state(PinState::Low, &mut ops);
    assert_eq!(ops, vec![level(0xF003_A104, 1 << 25), atomic(0xF003_A118, 0xC000, 0xFF00)]);
}

#[test]
fn same_mode_issues_no_write() {
    let parts = Port00.split();
    let mut ops = Vec::new();
    let pin = parts.p00_3.into_input(&mut ops);
    let pin = pin.into_floating_input(&mut ops);
    let pin = pin.into_pull_up_input(&mut ops);
    let pin = pin.into_pull_down_input(&mut ops);
    let pin = pin.into_analog(&mut ops);
    let _pin: Pin<0, 3, Input> = pin.into_mode(&mut ops);
    assert!(ops.is_empty());
    let parts = Port00.split();
    let out = parts.p00_4.into_push_pull_output(&mut ops);
    let before = ops.len();
    let _out: Pin<0, 4, Output<PushPull>> = out.into_mode(&mut ops);
    assert_eq!(ops.len(), before);
}

#[test]
fn alternate_modes_write_their_code() {
    let parts = Port00.split();
    let mut ops = Vec::new();
    let pin = parts.p00_12.into_alternate::<2>(&mut ops);
    assert_eq!(ops, vec![atomic(0xF003_A01C, 0x90, 0xFF)]);
    let mut ops = Vec::new();
    let pin = pin.set_open_drain(&mut ops);
    assert_eq!(ops, vec![atomic(0xF003_A01C, 0xD0, 0xFF)]);
    let mut ops = Vec::new();
    let _pin = pin.into_alternate_open_drain::<5>(&mut ops);
    assert_eq!(ops, vec![atomic(0xF003_A01C, 0xE8, 0xFF)]);
}

#[test]
fn mode_change_leaves_neighbours_alone() {
    let mut bus = Recorder::new();
    bus.load(0xF003_A014, 0x1088_C080);
    bus.load(0xF003_A010, 0x8080_8080);
    let parts = Port00.split();
    let mut ops = Vec::new();
    let _pin = parts.p00_6.into_alternate::<1>(&mut ops);
    bus.run(&ops);
    assert_eq!(bus.word(0xF003_A014), 0x1088_C080);
    let parts = Port00.split();
    let mut ops = Vec::new();
    let _pin = parts.p00_5.into_mode::<Output<PushPull>>(&mut ops);
    bus.run(&ops);
    assert_eq!(bus.word(0xF003_A014), 0x1088_8080);
    assert_eq!(bus.word(0xF003_A010), 0x8080_8080);
}

#[test]
fn mode_round_trip_equals_direct_change() {
    let mut direct = Recorder::new();
    direct.load(0xF003_A010, 0x0000_0000);
    let mut ops = Vec::new();
    let _pin = Port00.split().p00_2.into_mode::<Output<OpenDrain>>(&mut ops);
    direct.run(&ops);

    let mut around = Recorder::new();
    around.load(0xF003_A010, 0x0000_0000);
    let mut ops = Vec::new();
    let pin = Port00.split().p00_2.into_mode::<Output<OpenDrain>>(&mut ops);
    let pin = pin.into_mode::<Alternate<3, PushPull>>(&mut ops);
    let _pin = pin.into_mode::<Output<OpenDrain>>(&mut ops);
    assert_eq!(ops.len(), 3);
    around.run(&ops);

    assert_eq!(direct.word(0xF003_A010), 0x00C0_0000);
    assert_eq!(around.word(0xF003_A010), direct.word(0xF003_A010));
}

#[test]
fn with_input_restores_the_mode() {
    let mut ops = Vec::new();
    let mut led = Port00.split().p00_5.into_push_pull_output(&mut ops);
    let mut bus = Recorder::new();
    bus.run(&ops);
    assert_eq!(bus.word(0xF003_A014), 0x0000_8000);
    let before = bus.word(0xF003_A014);

    let mut ops = Vec::new();
    let low = led.with_input(&mut ops, |pin: &mut Pin<0, 5, Input>, _queue: &mut Vec<RegOp>| {
        pin.is_low(0x0000_0000)
    });
    assert!(low);
    assert_eq!(
        ops,
        vec![atomic(0xF003_A014, 0x0000, 0xFF00), atomic(0xF003_A014, 0x8000, 0xFF00)]
    );
    bus.run(&ops);
    assert_eq!(bus.word(0xF003_A014), before);
}

#[test]
fn with_input_restores_after_early_return() {
    let mut ops = Vec::new();
    let mut led = Port00.split().p00_5.into_push_pull_output(&mut ops);
    let mut ops = Vec::new();
    let found = led.with_input(&mut ops, |pin: &mut Pin<0, 5, Input>, _queue: &mut Vec<RegOp>| {
        if pin.is_high(0x20) {
            return Some(5u8);
        }
        None
    });
    assert_eq!(found, Some(5));
    assert_eq!(ops.last(), Some(&atomic(0xF003_A014, 0x8000, 0xFF00)));
}

#[test]
fn with_output_in_state_sets_level_first() {
    let mut input = Port00.split().p00_1;
    let mut ops = Vec::new();
    input.with_push_pull_output_in_state(
        PinState::High,
        &mut ops,
        |pin: &mut Pin<0, 1, Output<PushPull>>, queue: &mut Vec<RegOp>| pin.set_low(queue),
    );
    assert_eq!(
        ops,
        vec![
            level(0xF003_A004, 1 << 1),
            atomic(0xF003_A010, 0x8000, 0xFF00),
            level(0xF003_A004, 1 << 17),
            atomic(0xF003_A010, 0x0000, 0xFF00),
        ]
    );
    let mut ops = Vec::new();
    input.with_open_drain_output_in_state(
        PinState::Low,
        &mut ops,
        |_pin: &mut Pin<0, 1, Output<OpenDrain>>, _queue: &mut Vec<RegOp>| (),
    );
    assert_eq!(
        ops,
        vec![
            level(0xF003_A004, 1 << 17),
            atomic(0xF003_A010, 0xC000, 0xFF00),
            atomic(0xF003_A010, 0x0000, 0xFF00),
        ]
    );
}

#[test]
fn with_same_mode_writes_nothing() {
    let mut input = Port00.split().p00_1;
    let mut ops = Vec::new();
    input.with_analog(&mut ops, |_pin: &mut Pin<0, 1, Analog>, _queue: &mut Vec<RegOp>| ());
    input.with_input(&mut ops, |_pin: &mut Pin<0, 1, Input>, _queue: &mut Vec<RegOp>| ());
    assert!(ops.is_empty());
    input.with_open_drain_output(
        &mut ops,
        |_pin: &mut Pin<0, 1, Output<OpenDrain>>, _queue: &mut Vec<RegOp>| (),
    );
    input.with_push_pull_output(
        &mut ops,
        |_pin: &mut Pin<0, 1, Output<PushPull>>, _queue: &mut Vec<RegOp>| (),
    );
    assert_eq!(ops.len(), 4);
}

#[test]
fn output_levels_and_toggle() {
    let mut ops = Vec::new();
    let mut led = Port00.split().p00_6.into_push_pull_output(&mut ops);
    let mut ops = Vec::new();
    led.set_high(&mut ops);
    led.set_low(&mut ops);
    led.set_state(PinState::High, &mut ops);
    led.toggle(0x0000_0040, &mut ops);
    led.toggle(0x0000_0000, &mut ops);
    assert_eq!(
        ops,
        vec![
            level(0xF003_A004, 1 << 6),
            level(0xF003_A004, 1 << 22),
            level(0xF003_A004, 1 << 6),
            level(0xF003_A004, 1 << 22),
            level(0xF003_A004, 1 << 6),
        ]
    );
    assert!(led.is_set_high(0x40));
    assert!(led.is_set_low(0xFFFF_FFBF));
    assert_eq!(led.get_state(0x40), PinState::High);
    assert_eq!(led.get_state(0), PinState::Low);
    assert_eq!(led.output_query(), RegOp::Read { addr: 0xF003_A000 });
}

#[test]
fn input_reads_its_own_bit() {
    let button = Port00.split().p00_7;
    assert!(button.is_low(0xFFFF_FF7F));
    assert!(button.is_high(0x0000_0080));
    assert!(ReadPin::is_high(&button, 0x80));
    assert!(ReadPin::is_low(&button, 0x00));
    assert_eq!(button.input_query(), RegOp::Read { addr: 0xF003_A024 });
}

#[test]
fn speed_and_pull_write_nothing_and_keep_the_pin() {
    let mut ops = Vec::new();
    let pin = Port00.split().p00_8.into_push_pull_output(&mut ops);
    let pin = pin.speed(Speed::High).internal_pull_up(true).internal_pull_down(false);
    let mut pin = pin.internal_resistor(Pull::Floating);
    pin.set_speed(Speed::Low);
    pin.set_internal_resistor(Pull::Down);
    assert_eq!(pin.pin_id(), 8);
    assert_eq!(ops.len(), 2);
}

#[test]
fn erased_pin_keeps_identity_and_changes_mode() {
    let erased = Port01.split().p01_10.erase();
    assert_eq!(erased.port_id(), 1);
    assert_eq!(erased.pin_id(), 10);
    let mut ops = Vec::new();
    let erased = erased.into_mode::<Output<OpenDrain>>(&mut ops);
    assert_eq!(ops, vec![atomic(0xF003_A118, 0x00C0_0000, 0x00FF_0000)]);
    let erased = erased.into_mode::<Output<OpenDrain>>(&mut ops);
    assert_eq!(ops.len(), 1);
    assert_eq!(erased.port_id(), 1);
    assert_eq!(erased.pin_id(), 10);
}

#[test]
fn erased_pin_restores_only_to_its_own_pin() {
    let erased = Port01.split().p01_10.erase();
    let erased = match erased.restore::<0, 10>() {
        Ok(_) => panic!("restored to another port"),
        Err(erased) => erased,
    };
    let erased = match erased.restore::<1, 11>() {
        Ok(_) => panic!("restored to another pin"),
        Err(erased) => erased,
    };
    assert_eq!(erased.pin_id(), 10);
    let pin = match erased.restore::<1, 10>() {
        Ok(pin) => pin,
        Err(_) => panic!("not restored to its own pin"),
    };
    assert_eq!(pin.pin_id(), 10);
    assert_eq!(pin.port_id(), 1);
}

#[test]
fn partially_erased_pin_changes_mode_and_restores() {
    let erased = Port00.split().p00_14.erase_number();
    assert_eq!(erased.pin_id(), 14);
    assert_eq!(erased.port_id(), 0);
    let mut ops = Vec::new();
    let erased = erased.into_mode::<Output<PushPull>>(&mut ops);
    assert_eq!(ops, vec![atomic(0xF003_A01C, 0x0080_0000, 0x00FF_0000)]);
    let erased = match erased.restore::<13>() {
        Ok(_) => panic!("restored to another pin"),
        Err(erased) => erased,
    };
    assert!(erased.restore::<14>().is_ok());
}

#[test]
fn dynamic_pin_checks_mode_at_call_time() {
    let mut ops = Vec::new();
    let led = Port00.split().p00_5.into_push_pull_output(&mut ops);
    let mut ops = Vec::new();
    let mut pin = led.into_dynamic(&mut ops);
    assert_eq!(ops, vec![atomic(0xF003_A014, 0x0000, 0xFF00)]);
    assert_eq!(pin.get_mode(), Dynamic::InputFloating);
    assert_eq!(pin.set_high(&mut ops), Err(PinModeError::IncorrectMode));
    assert_eq!(pin.set_low(&mut ops), Err(PinModeError::IncorrectMode));
    assert_eq!(ops.len(), 1);
    assert_eq!(pin.is_low(0), Ok(true));
    assert_eq!(pin.is_high(0x20), Ok(true));

    let mut ops = Vec::new();
    pin.make_floating_input(&mut ops);
    assert!(ops.is_empty());
    pin.make_pull_up_input(&mut ops);
    assert_eq!(pin.get_mode(), Dynamic::InputPullUp);
    pin.make_pull_up_input(&mut ops);
    pin.make_pull_down_input(&mut ops);
    pin.make_floating_input(&mut ops);
    assert_eq!(
        ops,
        vec![
            atomic(0xF003_A014, 0x1000, 0xFF00),
            atomic(0xF003_A014, 0x0800, 0xFF00),
            atomic(0xF003_A014, 0x0000, 0xFF00),
        ]
    );
    assert_eq!(pin.is_low(0), Ok(true));
    let mut ops = Vec::new();
    pin.make_push_pull_output(&mut ops);
    assert_eq!(pin.get_mode(), Dynamic::OutputPushPull);
    assert_eq!(pin.set_high(&mut ops), Ok(()));
    assert_eq!(pin.is_low(0), Err(PinModeError::IncorrectMode));
    assert_eq!(pin.is_high(0), Err(PinModeError::IncorrectMode));
    pin.make_open_drain_output(&mut ops);
    assert_eq!(pin.is_high(0x20), Ok(true));
    assert_eq!(pin.set_state(PinState::Low, &mut ops), Ok(()));
    assert_eq!(
        ops,
        vec![
            atomic(0xF003_A014, 0x8000, 0xFF00),
            level(0xF003_A004, 1 << 5),
            atomic(0xF003_A014, 0xC000, 0xFF00),
            level(0xF003_A004, 1 << 21),
        ]
    );
    assert_eq!(Dynamic::InputFloating.mode_code(), 0x00);
    assert_eq!(Dynamic::InputPullDown.mode_code(), 0x08);
    assert_eq!(Dynamic::InputPullUp.mode_code(), 0x10);
    assert_eq!(Dynamic::OutputPushPull.mode_code(), 0x80);
    assert!(Dynamic::InputPullUp.is_input());
    assert!(!Dynamic::InputPullUp.is_output());
    assert!(Dynamic::OutputOpenDrain.is_output());
    assert_eq!(Dynamic::OutputOpenDrain.mode_code(), 0xC0);
}

#[test]
fn conversions_between_typed_and_erased_pins() {
    let erased: ErasedPin<Input> = Port01.split().p01_4.into();
    assert_eq!(erased.port_id(), 1);
    assert_eq!(erased.pin_id(), 4);
    let wrong: Result<Pin<1, 5, Input>, PinMismatch> = erased.try_into();
    assert!(matches!(wrong, Err(PinMismatch)));
    let erased: ErasedPin<Input> = Port01.split().p01_4.into();
    let right: Result<Pin<1, 4, Input>, PinMismatch> = Pin::try_from(erased);
    assert!(right.is_ok());
    let partly: PartiallyErasedPin<0, Input> = Port00.split().p00_9.into();
    assert_eq!(partly.pin_id(), 9);
    assert_eq!(partly.block(), PORT00);
}

#[test]
fn output_that_is_an_output_already_is_left_alone() {
    let mut ops = Vec::new();
    let mut led = Port00.split().p00_5.into_push_pull_output(&mut ops);
    led.set_high(&mut ops);
    let mut bus = Recorder::new();
    bus.run(&ops);
    let mut ops = Vec::new();
    let led = led.into_push_pull_output(&mut ops);
    assert!(ops.is_empty());
    let led = led.into_push_pull_output_in_state(PinState::High, &mut ops);
    assert_eq!(ops, vec![level(0xF003_A004, 1 << 5)]);
    let mut ops = Vec::new();
    let drain = led.into_open_drain_output(&mut ops);
    assert_eq!(
        ops,
        vec![level(0xF003_A004, 1 << 21), atomic(0xF003_A014, 0xC000, 0xFF00)]
    );
    let mut ops = Vec::new();
    let drain = drain.into_open_drain_output(&mut ops);
    assert!(ops.is_empty());
    // the general purpose alternate function has the code of the plain output
    let general = drain.into_alternate_open_drain::<0>(&mut ops);
    let _drain = general.into_open_drain_output(&mut ops);
    assert!(ops.is_empty());
}

#[test]
fn restore_transactions_are_known_before_the_closure_runs() {
    let mut ops = Vec::new();
    let mut led = Port00.split().p00_5.into_push_pull_output(&mut ops);
    let restore = led.restore_after::<Input>();
    assert_eq!(restore, vec![atomic(0xF003_A014, 0x8000, 0xFF00)]);
    assert!(led.restore_after::<Output<PushPull>>().is_empty());
    let mut ops = Vec::new();
    led.with_input(&mut ops, |_pin: &mut Pin<0, 5, Input>, _queue: &mut Vec<RegOp>| ());
    assert_eq!(ops.last(), restore.last());
}
