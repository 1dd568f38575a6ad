//! Configuration of a serial node: a plain aggregate with hardware-accurate
//! defaults.

use super::ports::{InputMode, OutputMode, PadDriver, PortNumber};
use vstd::prelude::*;

verus! {

/// Everything a node is configured with.
#[derive(Clone, Copy, Debug, PartialEq, Eq, Structural)]
pub struct NodeConfig {
    pub clock_source: ClockSource,
    pub baud_rate: BaudRateConfig,
    pub bit_timing: BitTimingConfig,
    pub frame: FrameConfig,
    pub fifo: FifoConfig,
    pub interrupt: InterruptConfig,
    pub error_flags: u8,
    pub loop_back: bool,
    pub pins: PinsConfig,
}

impl NodeConfig {
    /// The configuration a node has where nothing else is asked for.
    pub open spec fn default_spec() -> Self {
        NodeConfig {
            clock_source: ClockSource::FastClock,
            baud_rate: BaudRateConfig::default_spec(),
            bit_timing: BitTimingConfig::default_spec(),
            frame: FrameConfig::default_spec(),
            fifo: FifoConfig::default_spec(),
            interrupt: InterruptConfig::default_spec(),
            error_flags: 0,
            loop_back: false,
            pins: PinsConfig::default_spec(),
        }
    }

    /// The configuration can be programmed: the bit-timing arithmetic stays
    /// in range and the interrupts go to the primary core.
    pub open spec fn supported(&self) -> bool {
        &&& self.baud_rate.in_range()
        &&& self.interrupt.routed_to_primary_core()
    }

    /// Decides [`NodeConfig::supported`].
    pub fn is_supported(&self) -> (ok: bool)
        ensures
            ok == self.supported(),
    {
        self.baud_rate.is_in_range() && self.interrupt.is_routed_to_primary_core()
    }
}

impl Default for NodeConfig {
    fn default() -> (config: Self)
        ensures
            config == Self::default_spec(),
            config.supported(),
            config.pins.in_range(),
    {
        NodeConfig {
            clock_source: ClockSource::default(),
            baud_rate: BaudRateConfig::default(),
            bit_timing: BitTimingConfig::default(),
            frame: FrameConfig::default(),
            fifo: FifoConfig::default(),
            interrupt: InterruptConfig::default(),
            error_flags: 0,
            loop_back: false,
            pins: PinsConfig::default(),
        }
    }
}

/// Baud rate generation.
#[derive(Clone, Copy, Debug, PartialEq, Eq, Structural)]
pub struct BaudRateConfig {
    /// The baud rate asked for, in bits per second.
    pub baud_rate: u32,
    /// Division ratio of the predivider, counted from one.
    pub prescaler: u16,
    /// Division ratio of the postdivider, counted from zero.
    pub over_sampling_factor: u8,
}

impl BaudRateConfig {
    pub open spec fn default_spec() -> Self {
        BaudRateConfig { baud_rate: 115200, prescaler: 1, over_sampling_factor: 3 }
    }

    /// The prescaler is at least one and the oversampling factor leaves room
    /// for the increment the hardware encoding needs.
    pub open spec fn in_range(&self) -> bool {
        self.prescaler >= 1 && self.over_sampling_factor < 255
    }

    /// Decides [`BaudRateConfig::in_range`].
    pub fn is_in_range(&self) -> (ok: bool)
        ensures
            ok == self.in_range(),
    {
        self.prescaler >= 1 && self.over_sampling_factor < 255
    }
}

impl Default for BaudRateConfig {
    fn default() -> (config: Self)
        ensures
            config == Self::default_spec(),
    {
        BaudRateConfig { baud_rate: 115200, prescaler: 1, over_sampling_factor: 3 }
    }
}

/// Bit timing.
#[derive(Clone, Copy, Debug, PartialEq, Eq, Structural)]
pub struct BitTimingConfig {
    /// Three samples per bit with a median filter, instead of one.
    pub median_filter: bool,
    /// Position of the sample point within a bit.
    pub sample_point_position: u8,
}

impl BitTimingConfig {
    pub open spec fn default_spec() -> Self {
        BitTimingConfig { median_filter: false, sample_point_position: 3 }
    }
}

impl Default for BitTimingConfig {
    fn default() -> (config: Self)
        ensures
            config == Self::default_spec(),
    {
        BitTimingConfig { median_filter: false, sample_point_position: 3 }
    }
}

/// Shape of a frame.
#[derive(Clone, Copy, Debug, PartialEq, Eq, Structural)]
pub struct FrameConfig {
    /// Idle delay, in bit times.
    pub idle_delay: u8,
    /// Number of stop bits.
    pub stop_bit: u8,
    /// Mode of operation of the module.
    pub frame_mode: FrameMode,
    /// Shift direction: most significant bit first.
    pub shift_dir: bool,
    /// Parity type: odd instead of even.
    pub parity_type: bool,
    /// Number of bits per transfer, counted from zero.
    pub data_length: u8,
    /// Parity enable.
    pub parity_bit: bool,
}

impl FrameConfig {
    pub open spec fn default_spec() -> Self {
        FrameConfig {
            idle_delay: 0,
            stop_bit: 1,
            frame_mode: FrameMode::Asc,
            shift_dir: false,
            parity_type: false,
            data_length: 7,
            parity_bit: false,
        }
    }
}

impl Default for FrameConfig {
    fn default() -> (config: Self)
        ensures
            config == Self::default_spec(),
    {
        FrameConfig {
            idle_delay: 0,
            stop_bit: 1,
            frame_mode: FrameMode::Asc,
            shift_dir: false,
            parity_type: false,
            data_length: 7,
            parity_bit: false,
        }
    }
}

/// Mode of operation of the module.
#[derive(Clone, Copy, Debug, PartialEq, Eq, Structural)]
pub enum FrameMode {
    Initialise,
    Asc,
    Spi,
    Lin,
}

impl FrameMode {
    /// The code the frame-control register holds for the mode.
    pub open spec fn bits(self) -> u8 {
        match self {
            FrameMode::Initialise => 0,
            FrameMode::Asc => 1,
            FrameMode::Spi => 2,
            FrameMode::Lin => 3,
        }
    }
}

impl Default for FrameMode {
    fn default() -> (mode: Self)
        ensures
            mode == FrameMode::Asc,
    {
        FrameMode::Asc
    }
}

impl From<FrameMode> for u8 {
    fn from(x: FrameMode) -> (bits: u8) {
        match x {
            FrameMode::Initialise => 0,
            FrameMode::Asc => 1,
            FrameMode::Spi => 2,
            FrameMode::Lin => 3,
        }
    }
}

impl vstd::std_specs::convert::FromSpecImpl<FrameMode> for u8 {
    open spec fn obeys_from_spec() -> bool {
        true
    }

    open spec fn from_spec(x: FrameMode) -> u8 {
        x.bits()
    }
}

/// Clock that feeds the node.
#[derive(Clone, Copy, Debug, PartialEq, Eq, Structural)]
pub enum ClockSource {
    NoClock,
    FastClock,
    SlowClock,
}

impl ClockSource {
    /// The code the clock-selection field holds for the source.
    pub open spec fn bits(self) -> u8 {
        match self {
            ClockSource::NoClock => 0,
            ClockSource::FastClock => 2,
            ClockSource::SlowClock => 4,
        }
    }

    /// The source a clock-selection code stands for, if it stands for one.
    pub open spec fn from_bits(bits: u8) -> Option<ClockSource> {
        if bits == 0 {
            Some(ClockSource::NoClock)
        } else if bits == 2 {
            Some(ClockSource::FastClock)
        } else if bits == 4 {
            Some(ClockSource::SlowClock)
        } else {
            None
        }
    }

    /// Decoding undoes encoding.
    pub proof fn lemma_bits_round_trip(self)
        ensures
            Self::from_bits(self.bits()) == Some(self),
    {
    }
}

impl Default for ClockSource {
    fn default() -> (source: Self)
        ensures
            source == ClockSource::FastClock,
    {
        ClockSource::FastClock
    }
}

impl From<ClockSource> for u8 {
    fn from(x: ClockSource) -> (bits: u8) {
        match x {
            ClockSource::NoClock => 0,
            ClockSource::FastClock => 2,
            ClockSource::SlowClock => 4,
        }
    }
}

impl vstd::std_specs::convert::FromSpecImpl<ClockSource> for u8 {
    open spec fn obeys_from_spec() -> bool {
        true
    }

    open spec fn from_spec(x: ClockSource) -> u8 {
        x.bits()
    }
}

impl TryFrom<u8> for ClockSource {
    type Error = ();

    fn try_from(bits: u8) -> (source: Result<ClockSource, ()>) {
        match bits {
            0 => Ok(ClockSource::NoClock),
            2 => Ok(ClockSource::FastClock),
            4 => Ok(ClockSource::SlowClock),
            _ => Err(()),
        }
    }
}

impl vstd::std_specs::convert::TryFromSpecImpl<u8> for ClockSource {
    open spec fn obeys_try_from_spec() -> bool {
        true
    }

    open spec fn try_from_spec(bits: u8) -> Result<ClockSource, ()> {
        match ClockSource::from_bits(bits) {
            Some(source) => Ok(source),
            None => Err(()),
        }
    }
}

/// FIFO control.
#[derive(Clone, Copy, Debug, PartialEq, Eq, Structural)]
pub struct FifoConfig {
    /// Transmit FIFO inlet width.
    pub in_width: u8,
    /// Receive FIFO outlet width.
    pub out_width: u8,
    /// Transmit FIFO interrupt level.
    pub tx_fifo_interrupt_level: u8,
    /// Receive FIFO interrupt level.
    pub rx_fifo_interrupt_level: u8,
    /// Receive buffer mode.
    pub buff_mode: u32,
    /// Transmit FIFO interrupt generation mode.
    pub tx_fifo_interrupt_mode: u8,
    /// Receive FIFO interrupt generation mode.
    pub rx_fifo_interrupt_mode: u8,
}

impl FifoConfig {
    pub open spec fn default_spec() -> Self {
        FifoConfig {
            in_width: 1,
            out_width: 1,
            tx_fifo_interrupt_level: 0,
            rx_fifo_interrupt_level: 0,
            buff_mode: 0,
            tx_fifo_interrupt_mode: 0,
            rx_fifo_interrupt_mode: 0,
        }
    }
}

impl Default for FifoConfig {
    fn default() -> (config: Self)
        ensures
            config == Self::default_spec(),
    {
        FifoConfig {
            in_width: 1,
            out_width: 1,
            tx_fifo_interrupt_level: 0,
            rx_fifo_interrupt_level: 0,
            buff_mode: 0,
            tx_fifo_interrupt_mode: 0,
            rx_fifo_interrupt_mode: 0,
        }
    }
}

/// Interrupt control. A priority of zero leaves the channel disabled.
#[derive(Clone, Copy, Debug, PartialEq, Eq, Structural)]
pub struct InterruptConfig {
    pub tx_priority: u8,
    pub rx_priority: u8,
    pub er_priority: u8,
    pub type_of_service: Tos,
}

impl InterruptConfig {
    pub open spec fn default_spec() -> Self {
        InterruptConfig {
            tx_priority: 0,
            rx_priority: 0,
            er_priority: 0,
            type_of_service: Tos::CPU0,
        }
    }

    /// The service target is the primary core, the only one supported.
    pub open spec fn routed_to_primary_core(&self) -> bool {
        self.type_of_service == Tos::CPU0
    }

    /// Decides [`InterruptConfig::routed_to_primary_core`].
    pub fn is_routed_to_primary_core(&self) -> (ok: bool)
        ensures
            ok == self.routed_to_primary_core(),
    {
        self.type_of_service == Tos::CPU0
    }
}

impl Default for InterruptConfig {
    fn default() -> (config: Self)
        ensures
            config == Self::default_spec(),
    {
        InterruptConfig {
            tx_priority: 0,
            rx_priority: 0,
            er_priority: 0,
            type_of_service: Tos::CPU0,
        }
    }
}

/// Who services an interrupt.
#[derive(Clone, Copy, Debug, PartialEq, Eq, Structural)]
pub enum Tos {
    CPU0,
    DMA,
    CPU1,
    CPU2,
}

impl Tos {
    /// The code the service request node holds for the target.
    pub open spec fn bits(self) -> u8 {
        match self {
            Tos::CPU0 => 0,
            Tos::DMA => 1,
            Tos::CPU1 => 2,
            Tos::CPU2 => 3,
        }
    }
}

impl From<Tos> for u8 {
    fn from(x: Tos) -> (bits: u8) {
        match x {
            Tos::CPU0 => 0,
            Tos::DMA => 1,
            Tos::CPU1 => 2,
            Tos::CPU2 => 3,
        }
    }
}

impl vstd::std_specs::convert::FromSpecImpl<Tos> for u8 {
    open spec fn obeys_from_spec() -> bool {
        true
    }

    open spec fn from_spec(x: Tos) -> u8 {
        x.bits()
    }
}

/// Which input the receiver listens on.
#[derive(Clone, Copy, Debug, PartialEq, Eq, Structural)]
pub enum RxSel {
    _A,
    _B,
    _C,
    _D,
    _E,
    _F,
    _G,
    _H,
}

impl RxSel {
    /// The code the input-selection field holds.
    pub open spec fn bits(self) -> u8 {
        match self {
            RxSel::_A => 0,
            RxSel::_B => 1,
            RxSel::_C => 2,
            RxSel::_D => 3,
            RxSel::_E => 4,
            RxSel::_F => 5,
            RxSel::_G => 6,
            RxSel::_H => 7,
        }
    }
}

impl From<RxSel> for u8 {
    fn from(value: RxSel) -> (bits: u8) {
        match value {
            RxSel::_A => 0,
            RxSel::_B => 1,
            RxSel::_C => 2,
            RxSel::_D => 3,
            RxSel::_E => 4,
            RxSel::_F => 5,
            RxSel::_G => 6,
            RxSel::_H => 7,
        }
    }
}

impl vstd::std_specs::convert::FromSpecImpl<RxSel> for u8 {
    open spec fn obeys_from_spec() -> bool {
        true
    }

    open spec fn from_spec(value: RxSel) -> u8 {
        value.bits()
    }
}

/// Which output function drives a pin, as the port control code it adds.
#[derive(Clone, Copy, Debug, PartialEq, Eq, Structural)]
pub struct OutputIdx(pub u32);

impl OutputIdx {
    /// General purpose output.
    pub fn general() -> (idx: Self)
        ensures
            idx.0 == 0x80,
    {
        OutputIdx(0x80)
    }

    /// Alternate output function 1.
    pub fn alt1() -> (idx: Self)
        ensures
            idx.0 == 0x88,
    {
        OutputIdx(0x88)
    }

    /// Alternate output function 2.
    pub fn alt2() -> (idx: Self)
        ensures
            idx.0 == 0x90,
    {
        OutputIdx(0x90)
    }

    /// Alternate output function 3.
    pub fn alt3() -> (idx: Self)
        ensures
            idx.0 == 0x98,
    {
        OutputIdx(0x98)
    }

    /// Alternate output function 4.
    pub fn alt4() -> (idx: Self)
        ensures
            idx.0 == 0xA0,
    {
        OutputIdx(0xA0)
    }

    /// Alternate output function 5.
    pub fn alt5() -> (idx: Self)
        ensures
            idx.0 == 0xA8,
    {
        OutputIdx(0xA8)
    }

    /// Alternate output function 6.
    pub fn alt6() -> (idx: Self)
        ensures
            idx.0 == 0xB0,
    {
        OutputIdx(0xB0)
    }

    /// Alternate output function 7.
    pub fn alt7() -> (idx: Self)
        ensures
            idx.0 == 0xB8,
    {
        OutputIdx(0xB8)
    }
}

/// Pins of a node.
#[derive(Clone, Copy, Debug, PartialEq, Eq, Structural)]
pub struct PinsConfig {
    pub rx: Option<Rx>,
    pub tx: Option<Tx>,
    pub pad_driver: PadDriver,
}

impl PinsConfig {
    pub open spec fn default_spec() -> Self {
        PinsConfig { rx: None, tx: None, pad_driver: PadDriver::CmosAutomotiveSpeed1 }
    }

    /// Every routed pin is one of the sixteen a port has.
    pub open spec fn in_range(&self) -> bool {
        &&& self.rx matches Some(rx) ==> rx.pin_index < 16
        &&& self.tx matches Some(tx) ==> tx.pin_index < 16
    }

    /// Decides [`PinsConfig::in_range`].
    pub fn is_in_range(&self) -> (ok: bool)
        ensures
            ok == self.in_range(),
    {
        let rx_ok = match &self.rx {
            Some(rx) => rx.pin_index < 16,
            None => true,
        };
        let tx_ok = match &self.tx {
            Some(tx) => tx.pin_index < 16,
            None => true,
        };
        rx_ok && tx_ok
    }
}

impl Default for PinsConfig {
    fn default() -> (config: Self)
        ensures
            config == Self::default_spec(),
    {
        PinsConfig { rx: None, tx: None, pad_driver: PadDriver::CmosAutomotiveSpeed1 }
    }
}

/// Receive pin.
#[derive(Clone, Copy, Debug, PartialEq, Eq, Structural)]
pub struct Rx {
    pub port: PortNumber,
    pub pin_index: u8,
    pub select: RxSel,
    pub input_mode: InputMode,
}

/// Transmit pin.
#[derive(Clone, Copy, Debug, PartialEq, Eq, Structural)]
pub struct Tx {
    pub port: PortNumber,
    pub pin_index: u8,
    pub select: OutputIdx,
    pub output_mode: OutputMode,
}

} // verus!
