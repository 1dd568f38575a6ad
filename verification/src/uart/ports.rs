//! Port configuration for the pins of a serial node.

use super::uart_node::{OutputIdx, PinsConfig};
use super::asclin::{IOCR, IOCR_ALTI};
use crate::gpio::block::{
    mode_write, mode_write_op, MAX_BASE,
    OMR, PDISC, PDR0, PINS,
};
use crate::reg::{
    field, lemma_bracketed, lemma_paired_concat, lemma_windowless, put_field, windowless,
    windows_paired, RegOp,
};
use vstd::prelude::*;

verus! {

/// Strength and level of a pad's driver.
#[derive(Clone, Copy, Debug, PartialEq, Eq, Structural)]
pub enum PadDriver {
    CmosAutomotiveSpeed1,
    CmosAutomotiveSpeed2,
    CmosAutomotiveSpeed3,
    CmosAutomotiveSpeed4,
    TtlSpeed1,
    TtlSpeed2,
    TtlSpeed3,
    TtlSpeed4,
    Ttl3v3speed1,
    Ttl3v3speed2,
    Ttl3v3speed3,
    Ttl3v3speed4,
}

impl PadDriver {
    /// The code the pad driver mode register holds for the driver.
    pub open spec fn bits(self) -> u32 {
        match self {
            PadDriver::CmosAutomotiveSpeed1 => 0,
            PadDriver::CmosAutomotiveSpeed2 => 1,
            PadDriver::CmosAutomotiveSpeed3 => 2,
            PadDriver::CmosAutomotiveSpeed4 => 3,
            PadDriver::TtlSpeed1 => 8,
            PadDriver::TtlSpeed2 => 9,
            PadDriver::TtlSpeed3 => 10,
            PadDriver::TtlSpeed4 => 11,
            PadDriver::Ttl3v3speed1 => 12,
            PadDriver::Ttl3v3speed2 => 13,
            PadDriver::Ttl3v3speed3 => 14,
            PadDriver::Ttl3v3speed4 => 15,
        }
    }

    /// Computes [`PadDriver::bits`].
    pub fn code(self) -> (bits: u32)
        ensures
            bits == self.bits(),
    {
        match self {
            PadDriver::CmosAutomotiveSpeed1 => 0,
            PadDriver::CmosAutomotiveSpeed2 => 1,
            PadDriver::CmosAutomotiveSpeed3 => 2,
            PadDriver::CmosAutomotiveSpeed4 => 3,
            PadDriver::TtlSpeed1 => 8,
            PadDriver::TtlSpeed2 => 9,
            PadDriver::TtlSpeed3 => 10,
            PadDriver::TtlSpeed4 => 11,
            PadDriver::Ttl3v3speed1 => 12,
            PadDriver::Ttl3v3speed2 => 13,
            PadDriver::Ttl3v3speed3 => 14,
            PadDriver::Ttl3v3speed4 => 15,
        }
    }
}

/// The ports a node's pins can lie on.
#[derive(Clone, Copy, Debug, PartialEq, Eq, Structural)]
pub enum PortNumber {
    _00,
    _01,
    _02,
    _10,
    _11,
    _12,
    _13,
    _14,
    _15,
    _20,
    _21,
    _22,
    _23,
    _32,
    _33,
    _34,
    _40,
}

impl PortNumber {
    /// Address of the port's register block.
    pub open spec fn base(self) -> u32 {
        match self {
            PortNumber::_00 => 0xF003_A000,
            PortNumber::_01 => 0xF003_A100,
            PortNumber::_02 => 0xF003_A200,
            PortNumber::_10 => 0xF003_AA00,
            PortNumber::_11 => 0xF003_AB00,
            PortNumber::_12 => 0xF003_AC00,
            PortNumber::_13 => 0xF003_AD00,
            PortNumber::_14 => 0xF003_AE00,
            PortNumber::_15 => 0xF003_AF00,
            PortNumber::_20 => 0xF003_B400,
            PortNumber::_21 => 0xF003_B500,
            PortNumber::_22 => 0xF003_B600,
            PortNumber::_23 => 0xF003_B700,
            PortNumber::_32 => 0xF003_C000,
            PortNumber::_33 => 0xF003_C100,
            PortNumber::_34 => 0xF003_C200,
            PortNumber::_40 => 0xF003_C800,
        }
    }
}

/// What an output modification does to a pin.
#[derive(Clone, Copy, Debug, PartialEq, Eq, Structural)]
pub enum State {
    NotChanged,
    High,
    Low,
    Toggled,
}

impl State {
    /// The set bit and the clear bit of the action, for pin 0.
    pub open spec fn bits(self) -> u32 {
        match self {
            State::NotChanged => 0,
            State::High => 1,
            State::Low => 0x1_0000,
            State::Toggled => 0x1_0001,
        }
    }

    /// Computes [`State::bits`].
    pub fn code(self) -> (bits: u32)
        ensures
            bits == self.bits(),
    {
        match self {
            State::NotChanged => 0,
            State::High => 1,
            State::Low => 0x1_0000,
            State::Toggled => 0x1_0001,
        }
    }
}

/// Mode code of an input pin.
#[derive(Clone, Copy, Debug, PartialEq, Eq, Structural)]
pub struct InputMode(u32);

impl InputMode {
    /// The mode code.
    pub closed spec fn bits(self) -> u32 {
        self.0
    }

    /// Input without a pull device.
    pub fn no_pull_device() -> (mode: Self)
        ensures
            mode.bits() == 0x00,
    {
        InputMode(0x00)
    }

    /// Input with the pull-down device connected.
    pub fn pull_down() -> (mode: Self)
        ensures
            mode.bits() == 0x08,
    {
        InputMode(0x08)
    }

    /// Input with the pull-up device connected.
    pub fn pull_up() -> (mode: Self)
        ensures
            mode.bits() == 0x10,
    {
        InputMode(0x10)
    }
}

/// Mode code of an output pin, without its function index.
#[derive(Clone, Copy, Debug, PartialEq, Eq, Structural)]
pub struct OutputMode(u32);

impl OutputMode {
    /// The mode code.
    pub closed spec fn bits(self) -> u32 {
        self.0
    }

    /// Push-pull output.
    pub fn push_pull() -> (mode: Self)
        ensures
            mode.bits() == 0x80,
    {
        OutputMode(0x80)
    }

    /// Open-drain output.
    pub fn open_drain() -> (mode: Self)
        ensures
            mode.bits() == 0xC0,
    {
        OutputMode(0xC0)
    }

    /// No output mode.
    pub fn none() -> (mode: Self)
        ensures
            mode.bits() == 0,
    {
        OutputMode(0)
    }
}

/// A complete mode code of a pin.
pub struct Mode(u32);

impl Mode {
    /// The mode code.
    pub closed spec fn bits(self) -> u32 {
        self.0
    }
}

impl From<InputMode> for Mode {
    fn from(value: InputMode) -> (mode: Mode) {
        Mode(value.0)
    }
}

impl vstd::std_specs::convert::FromSpecImpl<InputMode> for Mode {
    open spec fn obeys_from_spec() -> bool {
        true
    }

    closed spec fn from_spec(value: InputMode) -> Mode {
        Mode(value.0)
    }
}

impl From<(OutputMode, OutputIdx)> for Mode {
    fn from(value: (OutputMode, OutputIdx)) -> (mode: Mode) {
        Mode(value.0.0 | value.1.0)
    }
}

impl vstd::std_specs::convert::FromSpecImpl<(OutputMode, OutputIdx)> for Mode {
    open spec fn obeys_from_spec() -> bool {
        true
    }

    closed spec fn from_spec(value: (OutputMode, OutputIdx)) -> Mode {
        Mode(value.0.0 | value.1.0)
    }
}

/// Bit position of the driver code of pin `index` within its pad driver
/// mode register.
pub open spec fn driver_shift(index: u8) -> u32 {
    ((index % 8) * 4) as u32
}

/// Address of the pad driver mode register of pin `index`.
pub open spec fn pdr_addr(base: u32, index: u8) -> u32 {
    (base + PDR0 + 4 * (index / 8)) as u32
}

/// Transactions of [`Port::set_pin_state`].
pub open spec fn pin_state_ops(base: u32, index: u8, action: State) -> Seq<RegOp> {
    seq![RegOp::Write { addr: (base + OMR) as u32, value: action.bits() << index }]
}

/// Transactions of [`Port::set_pin_mode`]. On the supervisor port the pin is
/// first handed to the digital function, inside a privileged-write window.
pub open spec fn pin_mode_ops(base: u32, index: u8, code: u32) -> Seq<RegOp> {
    let supervisor = if base == PortNumber::_40.base() {
        seq![
            RegOp::ClearEndinit,
            RegOp::Modify { addr: (base + PDISC) as u32, value: 0, mask: 1u32 << index },
            RegOp::SetEndinit,
        ]
    } else {
        Seq::empty()
    };
    supervisor + seq![mode_write(base, index, code)]
}

/// Transactions of [`Port::set_pin_pad_driver`]: one masked atomic write,
/// inside a privileged-write window.
pub open spec fn pad_driver_ops(base: u32, index: u8, driver: PadDriver) -> Seq<RegOp> {
    seq![
        RegOp::ClearEndinit,
        RegOp::ModifyAtomic {
            addr: pdr_addr(base, index),
            value: driver.bits() << driver_shift(index),
            mask: 0xFu32 << driver_shift(index),
        },
        RegOp::SetEndinit,
    ]
}

/// Transactions that route the receive pin.
pub open spec fn rx_mapping_ops(pins: PinsConfig) -> Seq<RegOp> {
    match pins.rx {
        Some(rx) => pin_mode_ops(rx.port.base(), rx.pin_index, rx.input_mode.bits())
            + pad_driver_ops(rx.port.base(), rx.pin_index, pins.pad_driver) + seq![
            RegOp::Modify {
                addr: IOCR,
                value: field(rx.select.bits() as u32, 0, IOCR_ALTI),
                mask: IOCR_ALTI,
            },
        ],
        None => Seq::empty(),
    }
}

/// Transactions that route the transmit pin.
pub open spec fn tx_mapping_ops(pins: PinsConfig) -> Seq<RegOp> {
    match pins.tx {
        Some(tx) => pin_mode_ops(
            tx.port.base(),
            tx.pin_index,
            tx.output_mode.bits() | tx.select.0,
        ) + pad_driver_ops(tx.port.base(), tx.pin_index, pins.pad_driver),
        None => Seq::empty(),
    }
}

/// Transactions of [`port_mapping`]: the receive pin, then the transmit pin.
pub open spec fn port_mapping_ops(pins: PinsConfig) -> Seq<RegOp> {
    rx_mapping_ops(pins) + tx_mapping_ops(pins)
}

/// The register block of one port.
pub struct Port {
    inner: u32,
}

impl Port {
    /// Address of the register block.
    pub closed spec fn base(&self) -> u32 {
        self.inner
    }

    /// The register block of `port`.
    pub fn new(port: PortNumber) -> (block: Self)
        ensures
            block.base() == port.base(),
            block.base() <= MAX_BASE,
    {
        let inner: u32 = match port {
            PortNumber::_00 => 0xF003_A000,
            PortNumber::_01 => 0xF003_A100,
            PortNumber::_02 => 0xF003_A200,
            PortNumber::_10 => 0xF003_AA00,
            PortNumber::_11 => 0xF003_AB00,
            PortNumber::_12 => 0xF003_AC00,
            PortNumber::_13 => 0xF003_AD00,
            PortNumber::_14 => 0xF003_AE00,
            PortNumber::_15 => 0xF003_AF00,
            PortNumber::_20 => 0xF003_B400,
            PortNumber::_21 => 0xF003_B500,
            PortNumber::_22 => 0xF003_B600,
            PortNumber::_23 => 0xF003_B700,
            PortNumber::_32 => 0xF003_C000,
            PortNumber::_33 => 0xF003_C100,
            PortNumber::_34 => 0xF003_C200,
            PortNumber::_40 => 0xF003_C800,
        };
        Self { inner }
    }

    /// Sets, clears or toggles the output of pin `index` with one write to
    /// the output modification register.
    pub fn set_pin_state(&self, index: u8, action: State, ops: &mut Vec<RegOp>)
        requires
            index < PINS,
            self.base() <= MAX_BASE,
        ensures
            final(ops)@ == old(ops)@ + pin_state_ops(self.base(), index, action),
    {
        let v: u32 = action.code() << index;
        ops.push(RegOp::Write { addr: self.inner + OMR, value: v });
        assert(ops@ =~= old(ops)@ + pin_state_ops(self.base(), index, action));
    }

    /// Toggles the output of pin `index`.
    pub fn toogle_pin(&self, index: u8, ops: &mut Vec<RegOp>)
        requires
            index < PINS,
            self.base() <= MAX_BASE,
        ensures
            final(ops)@ == old(ops)@ + pin_state_ops(self.base(), index, State::Toggled),
    {
        self.set_pin_state(index, State::Toggled, ops)
    }

    /// Drives the output of pin `index` low.
    pub fn set_pin_low(&self, index: u8, ops: &mut Vec<RegOp>)
        requires
            index < PINS,
            self.base() <= MAX_BASE,
        ensures
            final(ops)@ == old(ops)@ + pin_state_ops(self.base(), index, State::Low),
    {
        self.set_pin_state(index, State::Low, ops)
    }

    /// Makes pin `pin_index` an output of kind `mode`, driven by function
    /// `index`.
    pub fn set_pin_mode_output(
        &self,
        pin_index: u8,
        mode: OutputMode,
        index: OutputIdx,
        ops: &mut Vec<RegOp>,
    )
        requires
            pin_index < PINS,
            self.base() <= MAX_BASE,
        ensures
            final(ops)@ == old(ops)@ + pin_mode_ops(self.base(), pin_index, mode.bits() | index.0),
    {
        self.set_pin_mode(pin_index, Mode(mode.0 | index.0), ops);
    }

    /// Makes pin `pin_index` an input of kind `mode`.
    pub fn set_pin_mode_input(&self, pin_index: u8, mode: InputMode, ops: &mut Vec<RegOp>)
        requires
            pin_index < PINS,
            self.base() <= MAX_BASE,
        ensures
            final(ops)@ == old(ops)@ + pin_mode_ops(self.base(), pin_index, mode.bits()),
    {
        self.set_pin_mode(pin_index, Mode(mode.0), ops)
    }

    /// Puts mode code `mode` into the configuration byte of pin `index`.
    pub fn set_pin_mode(&self, index: u8, mode: Mode, ops: &mut Vec<RegOp>)
        requires
            index < PINS,
            self.base() <= MAX_BASE,
        ensures
            final(ops)@ == old(ops)@ + pin_mode_ops(self.base(), index, mode.bits()),
    {
        let is_supervisor = self.inner == 0xF003_C800;
        if is_supervisor {
            ops.push(RegOp::ClearEndinit);
            ops.push(RegOp::Modify { addr: self.inner + PDISC, value: 0, mask: 1u32 << index });
            ops.push(RegOp::SetEndinit);
        }
        ops.push(mode_write_op(self.inner, index, mode.0));
        assert(ops@ =~= old(ops)@ + pin_mode_ops(self.base(), index, mode.bits()));
    }

    /// Selects the pad driver of pin `index`.
    pub fn set_pin_pad_driver(&self, index: u8, driver: PadDriver, ops: &mut Vec<RegOp>)
        requires
            index < PINS,
            self.base() <= MAX_BASE,
        ensures
            final(ops)@ == old(ops)@ + pad_driver_ops(self.base(), index, driver),
    {
        let pdr_index: u32 = (index / 8) as u32;
        let shift: u32 = ((index % 8) * 4) as u32;
        let v: u32 = driver.code() << shift;
        let m: u32 = 0xFu32 << shift;
        ops.push(RegOp::ClearEndinit);
        ops.push(RegOp::ModifyAtomic { addr: self.inner + PDR0 + 4 * pdr_index, value: v, mask: m });
        ops.push(RegOp::SetEndinit);
        assert(ops@ =~= old(ops)@ + pad_driver_ops(self.base(), index, driver));
    }
}

/// Routes the pins of a node: for the receive pin its input mode, its pad
/// driver and the receiver's input selection; for the transmit pin its
/// output mode and its pad driver.
pub fn port_mapping(pins: &PinsConfig, ops: &mut Vec<RegOp>)
    requires
        pins.in_range(),
    ensures
        final(ops)@ == old(ops)@ + port_mapping_ops(*pins),
{
    if let Some(rx) = &pins.rx {
        let rx_port = Port::new(rx.port);
        rx_port.set_pin_mode_input(rx.pin_index, rx.input_mode, ops);
        rx_port.set_pin_pad_driver(rx.pin_index, pins.pad_driver, ops);
        let select: u8 = rx.select.into();
        ops.push(
            RegOp::Modify {
                addr: IOCR,
                value: put_field(select as u32, 0, IOCR_ALTI),
                mask: IOCR_ALTI,
            },
        );
    }
    assert(ops@ =~= old(ops)@ + rx_mapping_ops(*pins));
    let ghost mid = ops@;
    if let Some(tx) = &pins.tx {
        let tx_port = Port::new(tx.port);
        tx_port.set_pin_mode_output(tx.pin_index, tx.output_mode, tx.select, ops);
        tx_port.set_pin_pad_driver(tx.pin_index, pins.pad_driver, ops);
    }
    assert(ops@ =~= mid + tx_mapping_ops(*pins));
    assert(ops@ =~= old(ops)@ + port_mapping_ops(*pins));
}

/// Routing pins opens the privileged-write window only to close it
/// again.
pub proof fn lemma_port_mapping_paired(pins: PinsConfig)
    ensures
        windows_paired(port_mapping_ops(pins)),
{
    let none = Seq::<RegOp>::empty();
    lemma_windowless(none, false);
    match pins.rx {
        Some(rx) => {
            lemma_pin_mode_paired(rx.port.base(), rx.pin_index, rx.input_mode.bits());
            lemma_pad_driver_paired(rx.port.base(), rx.pin_index, pins.pad_driver);
            let mode = pin_mode_ops(rx.port.base(), rx.pin_index, rx.input_mode.bits());
            let driver = pad_driver_ops(rx.port.base(), rx.pin_index, pins.pad_driver);
            let select = rx_mapping_ops(pins)[rx_mapping_ops(pins).len() - 1];
            lemma_paired_concat(mode, driver);
            assert(windowless(seq![select]));
            lemma_windowless(seq![select], false);
            lemma_paired_concat(mode + driver, seq![select]);
            assert(rx_mapping_ops(pins) =~= mode + driver + seq![select]);
        },
        None => {},
    }
    match pins.tx {
        Some(tx) => {
            let code = tx.output_mode.bits() | tx.select.0;
            lemma_pin_mode_paired(tx.port.base(), tx.pin_index, code);
            lemma_pad_driver_paired(tx.port.base(), tx.pin_index, pins.pad_driver);
            lemma_paired_concat(
                pin_mode_ops(tx.port.base(), tx.pin_index, code),
                pad_driver_ops(tx.port.base(), tx.pin_index, pins.pad_driver),
            );
        },
        None => {},
    }
    lemma_paired_concat(rx_mapping_ops(pins), tx_mapping_ops(pins));
}

/// Changing the mode of a pin opens the window only to close it again.
pub proof fn lemma_pin_mode_paired(base: u32, index: u8, code: u32)
    ensures
        windows_paired(pin_mode_ops(base, index, code)),
{
    let write = seq![mode_write(base, index, code)];
    assert(windowless(write));
    lemma_windowless(write, false);
    if base == PortNumber::_40.base() {
        let inner = seq![
            RegOp::Modify { addr: (base + PDISC) as u32, value: 0, mask: 1u32 << index },
        ];
        assert(windowless(inner));
        lemma_bracketed(inner);
        let bracket = seq![RegOp::ClearEndinit] + inner + seq![RegOp::SetEndinit];
        lemma_paired_concat(bracket, write);
        assert(pin_mode_ops(base, index, code) =~= bracket + write);
    } else {
        assert(pin_mode_ops(base, index, code) =~= write);
    }
}

/// Selecting a pad driver opens the window only to close it again.
pub proof fn lemma_pad_driver_paired(base: u32, index: u8, driver: PadDriver)
    ensures
        windows_paired(pad_driver_ops(base, index, driver)),
{
    let ops = pad_driver_ops(base, index, driver);
    let inner = seq![ops[1]];
    assert(windowless(inner));
    lemma_bracketed(inner);
    assert(ops =~= seq![RegOp::ClearEndinit] + inner + seq![RegOp::SetEndinit]);
}

} // verus!
