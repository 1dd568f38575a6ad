//! General purpose input / output.
//!
//! The pins of a port are handed out once, by [`GpioExt::split`], each as a
//! value whose type says which port it belongs to, which pin it is and which
//! mode it is in. A pin changes its mode by being turned into a pin of
//! another type (`into_<mode>`), or for the time of a closure
//! (`with_<mode>`). Only the operations that make sense in a mode exist on
//! a pin in that mode.
//!
//! Nothing here touches the hardware. Every operation appends the register
//! transactions it stands for to a queue, and an operation that depends on
//! what a register holds takes the word that was read from it.

pub mod alt;
pub mod block;
pub mod convert;
pub mod dynamic;
pub mod erased;
pub mod marker;
pub mod partially_erased;
pub mod tc37x;

use crate::reg::RegOp;
use block::{IN, MAX_BASE, OMR, OUT, PINS, PORT_BASE, PORT_STRIDE};
use core::marker::PhantomData;
use erased::ErasedPin;
use partially_erased::PartiallyErasedPin;
use vstd::prelude::*;

verus! {

/// The mode a pin is in after reset.
pub type DefaultMode = Input;

/// JTAG/SWD mode (type state).
pub type Debugger = Alternate<0, PushPull>;

/// A filler pin type.
#[derive(Debug)]
pub struct NoPin<Otype = PushPull>(PhantomData<Otype>);

impl<Otype> NoPin<Otype> {
    pub fn new() -> Self {
        Self(PhantomData)
    }
}

/// Extension trait to split a GPIO peripheral in independent pins.
pub trait GpioExt {
    /// The parts to split the GPIO into.
    type Parts;

    /// Splits the GPIO block into independent pins.
    fn split(self) -> Self::Parts;
}

/// Id, port and mode for any pin.
pub trait PinExt {
    /// Current pin mode.
    type Mode;

    /// Pin number.
    fn pin_id(&self) -> u8;

    /// Port number starting from 0.
    fn port_id(&self) -> u8;
}

/// Some alternate mode (type state).
#[derive(Debug)]
pub struct Alternate<const A: u8, Otype = PushPull>(PhantomData<Otype>);

/// Input mode (type state).
#[derive(Debug)]
pub struct Input;

/// Pull setting for an input.
#[derive(Clone, Copy, Debug, PartialEq, Eq, Structural)]
pub enum Pull {
    /// Floating.
    Floating,
    /// Pulled up.
    Up,
    /// Pulled down.
    Down,
}

/// Open drain input or output (type state).
#[derive(Debug)]
pub struct OpenDrain;

/// Output mode (type state).
#[derive(Debug)]
pub struct Output<MODE = PushPull> {
    _mode: PhantomData<MODE>,
}

/// Push pull output (type state).
#[derive(Debug)]
pub struct PushPull;

/// Analog mode (type state).
#[derive(Debug)]
pub struct Analog;

impl<MODE> marker::Interruptible for Output<MODE> {

}

impl marker::Interruptible for Input {

}

impl marker::Readable for Input {

}

impl marker::Readable for Output<OpenDrain> {

}

impl<const A: u8, Otype> marker::Interruptible for Alternate<A, Otype> {

}

impl<const A: u8, Otype> marker::Readable for Alternate<A, Otype> {

}

impl marker::Active for Input {

}

impl<Otype> marker::OutputSpeed for Output<Otype> {

}

impl<const A: u8, Otype> marker::OutputSpeed for Alternate<A, Otype> {

}

impl<Otype> marker::Active for Output<Otype> {

}

impl<const A: u8, Otype> marker::Active for Alternate<A, Otype> {

}

impl marker::NotAlt for Input {

}

impl<Otype> marker::NotAlt for Output<Otype> {

}

impl marker::NotAlt for Analog {

}

/// GPIO pin speed selection.
#[derive(Clone, Copy, Debug, PartialEq, Eq, Structural)]
pub enum Speed {
    /// Low speed.
    Low,
    /// Medium speed.
    Medium,
    /// High speed.
    High,
    /// Very high speed.
    VeryHigh,
}

/// GPIO interrupt trigger edge selection.
#[derive(Clone, Copy, Debug, PartialEq, Eq, Structural)]
pub enum Edge {
    /// Rising edge of voltage.
    Rising,
    /// Falling edge of voltage.
    Falling,
    /// Rising and falling edge of voltage.
    RisingFalling,
}

/// Electrical level of an output.
#[derive(Clone, Copy, Debug, PartialEq, Eq, Structural)]
pub enum PinState {
    /// Low pin state.
    Low,
    /// High pin state.
    High,
}

/// Alternate function 0 (type state).
pub type AF0<Otype = PushPull> = Alternate<0, Otype>;

/// Alternate function 1 (type state).
pub type AF1<Otype = PushPull> = Alternate<1, Otype>;

/// Alternate function 2 (type state).
pub type AF2<Otype = PushPull> = Alternate<2, Otype>;

/// Alternate function 3 (type state).
pub type AF3<Otype = PushPull> = Alternate<3, Otype>;

/// Alternate function 4 (type state).
pub type AF4<Otype = PushPull> = Alternate<4, Otype>;

/// Alternate function 5 (type state).
pub type AF5<Otype = PushPull> = Alternate<5, Otype>;

/// Alternate function 6 (type state).
pub type AF6<Otype = PushPull> = Alternate<6, Otype>;

/// Alternate function 7 (type state).
pub type AF7<Otype = PushPull> = Alternate<7, Otype>;

/// Whether the chip has a port `port` whose pins this module hands out.
pub open spec fn known_port(port: int) -> bool {
    port == 0 || port == 1
}

/// Address of the register block of port `port`.
pub open spec fn port_base(port: int) -> u32 {
    (PORT_BASE + PORT_STRIDE * port) as u32
}

/// The write to the output modification register that gives pin `n` the
/// level `state`: its set bit for high, its clear bit for low.
pub open spec fn level_write(base: u32, n: u8, state: PinState) -> RegOp {
    RegOp::Write {
        addr: (base + OMR) as u32,
        value: match state {
            PinState::High => 1u32 << n,
            PinState::Low => 0x1_0000u32 << n,
        },
    }
}

/// Whether the bit of pin `n` is clear in `word`, a word read from the
/// input or the output register of its port.
pub open spec fn bit_is_low(word: u32, n: u8) -> bool {
    word & (1u32 << n) == 0
}

/// Address of the input register of a port.
pub open spec fn input_addr(base: u32) -> u32 {
    (base + IN) as u32
}

/// Address of the output register of a port.
pub open spec fn output_addr(base: u32) -> u32 {
    (base + OUT) as u32
}

/// Computes [`port_base`] for the ports that exist.
pub fn port_base_of(port: u8) -> (base: u32)
    requires
        known_port(port as int),
    ensures
        base == port_base(port as int),
        base <= MAX_BASE,
{
    PORT_BASE + PORT_STRIDE * (port as u32)
}

/// Appends [`level_write`].
pub(crate) fn write_level(base: u32, n: u8, state: PinState, ops: &mut Vec<RegOp>)
    requires
        n < PINS,
        base <= MAX_BASE,
    ensures
        final(ops)@ == old(ops)@.push(level_write(base, n, state)),
{
    let bits: u32 = match state {
        PinState::High => 1u32 << n,
        PinState::Low => 0x1_0000u32 << n,
    };
    ops.push(RegOp::Write { addr: base + OMR, value: bits });
}

/// Computes [`bit_is_low`].
pub(crate) fn read_bit_low(word: u32, n: u8) -> (low: bool)
    requires
        n < PINS,
    ensures
        low == bit_is_low(word, n),
{
    word & (1u32 << n) == 0
}

/// Generic pin type.
///
/// - `MODE` is one of the pin modes.
/// - `P` is the port number.
/// - `N` is the pin number: from `0` to `15`.
pub struct Pin<const P: usize, const N: u8, MODE = DefaultMode> {
    _mode: PhantomData<MODE>,
}

impl<const P: usize, const N: u8, MODE> Pin<P, N, MODE> {
    /// A pin is one of the sixteen of a port that exists.
    #[verifier::type_invariant]
    closed spec fn on_chip(&self) -> bool {
        N < PINS && known_port(P as int)
    }

    pub(crate) fn new() -> Self
        requires
            N < PINS,
            known_port(P as int),
    {
        Self { _mode: PhantomData }
    }

    /// Address of the register block of the pin's port.
    pub fn block(&self) -> (base: u32)
        ensures
            base == port_base(P as int),
            base <= MAX_BASE,
            known_port(P as int),
            N < PINS,
    {
        proof {
            use_type_invariant(self);
        }
        let port: usize = P;
        port_base_of(port as u8)
    }

    /// The read that tells the input level of the pins of the port.
    pub fn input_query(&self) -> (op: RegOp)
        ensures
            op == (RegOp::Read { addr: input_addr(port_base(P as int)) }),
    {
        RegOp::Read { addr: self.block() + IN }
    }

    /// The read that tells the output level of the pins of the port.
    pub fn output_query(&self) -> (op: RegOp)
        ensures
            op == (RegOp::Read { addr: output_addr(port_base(P as int)) }),
    {
        RegOp::Read { addr: self.block() + OUT }
    }
}

impl<const P: usize, const N: u8, MODE> PinExt for Pin<P, N, MODE> {
    type Mode = MODE;

    fn pin_id(&self) -> (id: u8)
        ensures
            id == N,
    {
        N
    }

    fn port_id(&self) -> (id: u8)
        ensures
            id == P,
    {
        proof {
            use_type_invariant(self);
        }
        let port: usize = P;
        port as u8
    }
}

/// Pins whose slew rate can be chosen.
pub trait PinSpeed: Sized {
    /// The pin as it is once its speed is `speed`.
    spec fn at_speed(&self, speed: Speed) -> Self;

    /// Set pin speed.
    fn set_speed(&mut self, speed: Speed)
        ensures
            *final(self) == old(self).at_speed(speed),
    ;

    /// Sets the speed of the pin and hands the pin back.
    fn speed(self, speed: Speed) -> (pin: Self)
        ensures
            pin == self.at_speed(speed),
    {
        let mut pin = self;
        pin.set_speed(speed);
        pin
    }
}

/// Pins whose pull resistor can be chosen.
pub trait PinPull: Sized {
    /// The pin as it is once its resistor is `resistor`.
    spec fn with_resistor(&self, resistor: Pull) -> Self;

    /// Set the internal pull-up and pull-down resistor.
    fn set_internal_resistor(&mut self, resistor: Pull)
        ensures
            *final(self) == old(self).with_resistor(resistor),
    ;

    /// Sets the resistor of the pin and hands the pin back.
    fn internal_resistor(self, resistor: Pull) -> (pin: Self)
        ensures
            pin == self.with_resistor(resistor),
    {
        let mut pin = self;
        pin.set_internal_resistor(resistor);
        pin
    }
}

impl<const P: usize, const N: u8, MODE> PinSpeed for Pin<P, N, MODE> where
    MODE: marker::OutputSpeed,
 {
    /// A pin holds nothing of its speed: it is the pin it was.
    open spec fn at_speed(&self, speed: Speed) -> Self {
        *self
    }

    fn set_speed(&mut self, speed: Speed) {
        Pin::<P, N, MODE>::set_speed(self, speed)
    }
}

impl<const P: usize, const N: u8, MODE> Pin<P, N, MODE> where MODE: marker::OutputSpeed {
    /// Set pin speed. No register transaction is issued for it, and the pin
    /// is the pin it was.
    pub fn set_speed(&mut self, speed: Speed)
        ensures
            *final(self) == *old(self),
    {
    }

    /// Set pin speed, and hand the pin back.
    pub fn speed(self, speed: Speed) -> (pin: Self)
        ensures
            pin == self,
    {
        let mut pin = self;
        pin.set_speed(speed);
        pin
    }
}

impl<const P: usize, const N: u8, MODE> PinPull for Pin<P, N, MODE> where MODE: marker::Active {
    /// A pin holds nothing of its resistor: it is the pin it was.
    open spec fn with_resistor(&self, resistor: Pull) -> Self {
        *self
    }

    fn set_internal_resistor(&mut self, resistor: Pull) {
        Pin::<P, N, MODE>::set_internal_resistor(self, resistor)
    }
}

impl<const P: usize, const N: u8, MODE> Pin<P, N, MODE> where MODE: marker::Active {
    /// Set the internal pull-up and pull-down resistor. No register
    /// transaction is issued for it, and the pin is the pin it was.
    pub fn set_internal_resistor(&mut self, resistor: Pull)
        ensures
            *final(self) == *old(self),
    {
    }

    /// Set the internal pull-up and pull-down resistor, and hand the pin
    /// back.
    pub fn internal_resistor(self, resistor: Pull) -> (pin: Self)
        ensures
            pin == self,
    {
        let mut pin = self;
        pin.set_internal_resistor(resistor);
        pin
    }

    /// Enables / disables the internal pull up, and hands the pin back.
    pub fn internal_pull_up(self, on: bool) -> (pin: Self)
        ensures
            pin == self,
    {
        if on {
            self.internal_resistor(Pull::Up)
        } else {
            self.internal_resistor(Pull::Floating)
        }
    }

    /// Enables / disables the internal pull down, and hands the pin back.
    pub fn internal_pull_down(self, on: bool) -> (pin: Self)
        ensures
            pin == self,
    {
        if on {
            self.internal_resistor(Pull::Down)
        } else {
            self.internal_resistor(Pull::Floating)
        }
    }
}

impl<const P: usize, const N: u8, MODE> Pin<P, N, MODE> {
    /// Erases the pin number from the type.
    ///
    /// This is useful when you want to collect the pins into an array where
    /// you need all the elements to have the same type.
    pub fn erase_number(self) -> (pin: PartiallyErasedPin<P, MODE>)
        ensures
            pin.index() == N,
    {
        proof {
            use_type_invariant(&self);
        }
        PartiallyErasedPin::new(N)
    }

    /// Erases the pin number and the port from the type.
    ///
    /// This is useful when you want to collect the pins into an array where
    /// you need all the elements to have the same type.
    pub fn erase(self) -> (pin: ErasedPin<MODE>)
        ensures
            pin.port() == P,
            pin.index() == N,
    {
        proof {
            use_type_invariant(&self);
        }
        let port: usize = P;
        ErasedPin::new(port as u8, N)
    }
}

impl<const P: usize, const N: u8, MODE> Pin<P, N, MODE> {
    /// Set the output of the pin regardless of its mode. Primarily used to
    /// set the output value of the pin before changing its mode to an
    /// output, to avoid a short spike of an incorrect value.
    pub(crate) fn _set_state(&mut self, state: PinState, ops: &mut Vec<RegOp>)
        ensures
            final(ops)@ == old(ops)@.push(level_write(port_base(P as int), N, state)),
    {
        let base = self.block();
        write_level(base, N, state, ops);
    }

    pub(crate) fn _set_high(&mut self, ops: &mut Vec<RegOp>)
        ensures
            final(ops)@ == old(ops)@.push(level_write(port_base(P as int), N, PinState::High)),
    {
        self._set_state(PinState::High, ops)
    }

    pub(crate) fn _set_low(&mut self, ops: &mut Vec<RegOp>)
        ensures
            final(ops)@ == old(ops)@.push(level_write(port_base(P as int), N, PinState::Low)),
    {
        self._set_state(PinState::Low, ops)
    }

    /// Whether the output of the pin is set low, given `out`, the word read
    /// from the output register of its port.
    pub(crate) fn _is_set_low(&self, out: u32) -> (low: bool)
        ensures
            low == bit_is_low(out, N),
    {
        proof {
            use_type_invariant(self);
        }
        read_bit_low(out, N)
    }

    /// Whether the input of the pin is low, given `input`, the word read
    /// from the input register of its port.
    pub(crate) fn _is_low(&self, input: u32) -> (low: bool)
        ensures
            low == bit_is_low(input, N),
    {
        proof {
            use_type_invariant(self);
        }
        read_bit_low(input, N)
    }
}

impl<const P: usize, const N: u8, MODE> Pin<P, N, Output<MODE>> {
    /// Drives the pin high.
    pub fn set_high(&mut self, ops: &mut Vec<RegOp>)
        ensures
            final(ops)@ == old(ops)@.push(level_write(port_base(P as int), N, PinState::High)),
    {
        self._set_high(ops)
    }

    /// Drives the pin low.
    pub fn set_low(&mut self, ops: &mut Vec<RegOp>)
        ensures
            final(ops)@ == old(ops)@.push(level_write(port_base(P as int), N, PinState::Low)),
    {
        self._set_low(ops)
    }

    /// Is the pin in drive high or low mode? `out` is the word read from the
    /// output register of the port.
    pub fn get_state(&self, out: u32) -> (state: PinState)
        ensures
            state == if bit_is_low(out, N) {
                PinState::Low
            } else {
                PinState::High
            },
    {
        if self.is_set_low(out) {
            PinState::Low
        } else {
            PinState::High
        }
    }

    /// Drives the pin high or low depending on the provided value.
    pub fn set_state(&mut self, state: PinState, ops: &mut Vec<RegOp>)
        ensures
            final(ops)@ == old(ops)@.push(level_write(port_base(P as int), N, state)),
    {
        match state {
            PinState::Low => self.set_low(ops),
            PinState::High => self.set_high(ops),
        }
    }

    /// Is the pin in drive high mode? `out` is the word read from the output
    /// register of the port.
    pub fn is_set_high(&self, out: u32) -> (high: bool)
        ensures
            high == !bit_is_low(out, N),
    {
        !self.is_set_low(out)
    }

    /// Is the pin in drive low mode? `out` is the word read from the output
    /// register of the port.
    pub fn is_set_low(&self, out: u32) -> (low: bool)
        ensures
            low == bit_is_low(out, N),
    {
        self._is_set_low(out)
    }

    /// Toggle pin output: high where `out`, the word read from the output
    /// register of the port, has the pin low, and low otherwise.
    pub fn toggle(&mut self, out: u32, ops: &mut Vec<RegOp>)
        ensures
            final(ops)@ == old(ops)@.push(
                level_write(
                    port_base(P as int),
                    N,
                    if bit_is_low(out, N) {
                        PinState::High
                    } else {
                        PinState::Low
                    },
                ),
            ),
    {
        if self.is_set_low(out) {
            self.set_high(ops)
        } else {
            self.set_low(ops)
        }
    }
}

/// Pins that can be read.
pub trait ReadPin {
    /// Whether the pin is low where `input` is the word that the input
    /// register of its port holds.
    spec fn low(&self, input: u32) -> bool;

    /// Whether the pin is high, given the word read from the input register
    /// of its port.
    fn is_high(&self, input: u32) -> (high: bool)
        ensures
            high == !self.low(input),
    {
        !self.is_low(input)
    }

    /// Whether the pin is low, given the word read from the input register
    /// of its port.
    fn is_low(&self, input: u32) -> (low: bool)
        ensures
            low == self.low(input),
    ;
}

impl<const P: usize, const N: u8, MODE> ReadPin for Pin<P, N, MODE> where
    MODE: marker::Readable,
 {
    /// A pin is low where its own bit of the word is clear.
    open spec fn low(&self, input: u32) -> bool {
        bit_is_low(input, N)
    }

    fn is_low(&self, input: u32) -> (low: bool) {
        Pin::<P, N, MODE>::is_low(self, input)
    }
}

impl<const P: usize, const N: u8, MODE> Pin<P, N, MODE> where MODE: marker::Readable {
    /// Is the input pin high? `input` is the word read from the input
    /// register of the port.
    pub fn is_high(&self, input: u32) -> (high: bool)
        ensures
            high == !bit_is_low(input, N),
    {
        !self.is_low(input)
    }

    /// Is the input pin low? `input` is the word read from the input
    /// register of the port.
    pub fn is_low(&self, input: u32) -> (low: bool)
        ensures
            low == bit_is_low(input, N),
    {
        self._is_low(input)
    }
}

} // verus!
