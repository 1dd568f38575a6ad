//! Pins whose mode is kept at run time.
//!
//! A dynamic pin gives up the static tracking of its mode: it can change
//! between input and output without changing its type, and every operation
//! checks at call time whether the mode the pin is in allows it.

use super::block::PINS;
use super::convert::{change_mode, mode_change};
use super::{
    bit_is_low, known_port, level_write, port_base, port_base_of, read_bit_low, write_level,
    PinState,
};
use crate::reg::RegOp;
use vstd::prelude::*;

verus! {

/// Pin type with dynamic mode.
///
/// - `P` is the port number.
/// - `N` is the pin number: from `0` to `15`.
pub struct DynamicPin<const P: usize, const N: u8> {
    /// Current pin mode.
    mode: Dynamic,
}

/// Tracks the current pin state for dynamic pins.
#[derive(Clone, Copy, Debug, PartialEq, Eq, Structural)]
pub enum Dynamic {
    /// Floating input mode.
    InputFloating,
    /// Pull-up input mode.
    InputPullUp,
    /// Pull-down input mode.
    InputPullDown,
    /// Push-pull output mode.
    OutputPushPull,
    /// Open-drain output mode.
    OutputOpenDrain,
}

/// Error for [`DynamicPin`].
#[derive(Clone, Copy, Debug, PartialEq, Eq, Structural)]
pub enum PinModeError {
    /// The operation is not allowed in the mode the pin is in.
    IncorrectMode,
}

impl Dynamic {
    /// The code that the control register holds for a pin in this mode. The
    /// input codes say which pull device is connected.
    pub open spec fn code(self) -> u8 {
        match self {
            Dynamic::InputFloating => 0x00,
            Dynamic::InputPullUp => 0x10,
            Dynamic::InputPullDown => 0x08,
            Dynamic::OutputPushPull => 0x80,
            Dynamic::OutputOpenDrain => 0xC0,
        }
    }

    /// Whether the mode is an input mode.
    pub open spec fn input(self) -> bool {
        self is InputFloating || self is InputPullUp || self is InputPullDown
    }

    /// Whether the mode is an output mode.
    pub open spec fn output(self) -> bool {
        self is OutputPushPull || self is OutputOpenDrain
    }

    /// Computes [`Dynamic::code`].
    pub fn mode_code(&self) -> (code: u8)
        ensures
            code == self.code(),
    {
        match self {
            Dynamic::InputFloating => 0x00,
            Dynamic::InputPullUp => 0x10,
            Dynamic::InputPullDown => 0x08,
            Dynamic::OutputPushPull => 0x80,
            Dynamic::OutputOpenDrain => 0xC0,
        }
    }

    /// Is pin in readable mode.
    pub fn is_input(&self) -> (input: bool)
        ensures
            input == self.input(),
    {
        match self {
            Dynamic::InputFloating | Dynamic::InputPullUp | Dynamic::InputPullDown => true,
            _ => false,
        }
    }

    /// Is pin in writable mode.
    pub fn is_output(&self) -> (output: bool)
        ensures
            output == self.output(),
    {
        match self {
            Dynamic::OutputPushPull | Dynamic::OutputOpenDrain => true,
            _ => false,
        }
    }
}

impl<const P: usize, const N: u8> DynamicPin<P, N> {
    /// The mode the pin is in.
    pub closed spec fn mode(&self) -> Dynamic {
        self.mode
    }

    #[verifier::type_invariant]
    closed spec fn on_chip(&self) -> bool {
        N < PINS && known_port(P as int)
    }

    pub(crate) fn new(mode: Dynamic) -> (pin: Self)
        requires
            N < PINS,
            known_port(P as int),
        ensures
            pin.mode() == mode,
    {
        Self { mode }
    }

    /// The mode the pin is in.
    pub fn get_mode(&self) -> (mode: Dynamic)
        ensures
            mode == self.mode(),
    {
        self.mode
    }

    /// Puts the pin into `mode`. Where the code of that mode is the one the
    /// pin has already, no register is written.
    pub fn make(&mut self, mode: Dynamic, ops: &mut Vec<RegOp>)
        ensures
            final(self).mode() == mode,
            final(ops)@ == old(ops)@ + mode_change(
                port_base(P as int),
                N,
                old(self).mode().code(),
                mode.code(),
            ),
    {
        proof {
            use_type_invariant(&*self);
        }
        let port: usize = P;
        let base = port_base_of(port as u8);
        change_mode(base, N, self.mode.mode_code(), mode.mode_code(), ops);
        self.mode = mode;
    }

    /// Switch pin into pull-up input.
    pub fn make_pull_up_input(&mut self, ops: &mut Vec<RegOp>)
        ensures
            final(self).mode() == Dynamic::InputPullUp,
            final(ops)@ == old(ops)@ + mode_change(
                port_base(P as int),
                N,
                old(self).mode().code(),
                Dynamic::InputPullUp.code(),
            ),
    {
        self.make(Dynamic::InputPullUp, ops)
    }

    /// Switch pin into pull-down input.
    pub fn make_pull_down_input(&mut self, ops: &mut Vec<RegOp>)
        ensures
            final(self).mode() == Dynamic::InputPullDown,
            final(ops)@ == old(ops)@ + mode_change(
                port_base(P as int),
                N,
                old(self).mode().code(),
                Dynamic::InputPullDown.code(),
            ),
    {
        self.make(Dynamic::InputPullDown, ops)
    }

    /// Switch pin into floating input.
    pub fn make_floating_input(&mut self, ops: &mut Vec<RegOp>)
        ensures
            final(self).mode() == Dynamic::InputFloating,
            final(ops)@ == old(ops)@ + mode_change(
                port_base(P as int),
                N,
                old(self).mode().code(),
                Dynamic::InputFloating.code(),
            ),
    {
        self.make(Dynamic::InputFloating, ops)
    }

    /// Switch pin into push-pull output.
    pub fn make_push_pull_output(&mut self, ops: &mut Vec<RegOp>)
        ensures
            final(self).mode() == Dynamic::OutputPushPull,
            final(ops)@ == old(ops)@ + mode_change(
                port_base(P as int),
                N,
                old(self).mode().code(),
                Dynamic::OutputPushPull.code(),
            ),
    {
        self.make(Dynamic::OutputPushPull, ops)
    }

    /// Switch pin into open-drain output.
    pub fn make_open_drain_output(&mut self, ops: &mut Vec<RegOp>)
        ensures
            final(self).mode() == Dynamic::OutputOpenDrain,
            final(ops)@ == old(ops)@ + mode_change(
                port_base(P as int),
                N,
                old(self).mode().code(),
                Dynamic::OutputOpenDrain.code(),
            ),
    {
        self.make(Dynamic::OutputOpenDrain, ops)
    }

    /// Drives the pin to `state`, if it is an output. An input pin is left
    /// alone and the error says so.
    pub fn set_state(&mut self, state: PinState, ops: &mut Vec<RegOp>) -> (done: Result<
        (),
        PinModeError,
    >)
        ensures
            final(self).mode() == old(self).mode(),
            old(self).mode().output() ==> done is Ok && final(ops)@ == old(ops)@.push(
                level_write(port_base(P as int), N, state),
            ),
            !old(self).mode().output() ==> done == Err::<(), PinModeError>(
                PinModeError::IncorrectMode,
            ) && final(ops)@ == old(ops)@,
    {
        proof {
            use_type_invariant(&*self);
        }
        if self.mode.is_output() {
            let port: usize = P;
            write_level(port_base_of(port as u8), N, state, ops);
            Ok(())
        } else {
            Err(PinModeError::IncorrectMode)
        }
    }

    /// Drives the pin high, if it is an output.
    pub fn set_high(&mut self, ops: &mut Vec<RegOp>) -> (done: Result<(), PinModeError>)
        ensures
            final(self).mode() == old(self).mode(),
            old(self).mode().output() ==> done is Ok && final(ops)@ == old(ops)@.push(
                level_write(port_base(P as int), N, PinState::High),
            ),
            !old(self).mode().output() ==> done == Err::<(), PinModeError>(
                PinModeError::IncorrectMode,
            ) && final(ops)@ == old(ops)@,
    {
        self.set_state(PinState::High, ops)
    }

    /// Drives the pin low, if it is an output.
    pub fn set_low(&mut self, ops: &mut Vec<RegOp>) -> (done: Result<(), PinModeError>)
        ensures
            final(self).mode() == old(self).mode(),
            old(self).mode().output() ==> done is Ok && final(ops)@ == old(ops)@.push(
                level_write(port_base(P as int), N, PinState::Low),
            ),
            !old(self).mode().output() ==> done == Err::<(), PinModeError>(
                PinModeError::IncorrectMode,
            ) && final(ops)@ == old(ops)@,
    {
        self.set_state(PinState::Low, ops)
    }

    /// Is the input pin low? `input` is the word read from the input
    /// register of the port. A push-pull output cannot be read.
    pub fn is_low(&self, input: u32) -> (low: Result<bool, PinModeError>)
        ensures
            self.mode() != Dynamic::OutputPushPull ==> low == Ok::<bool, PinModeError>(
                bit_is_low(input, N),
            ),
            self.mode() == Dynamic::OutputPushPull ==> low == Err::<bool, PinModeError>(
                PinModeError::IncorrectMode,
            ),
    {
        proof {
            use_type_invariant(self);
        }
        match self.mode {
            Dynamic::OutputPushPull => Err(PinModeError::IncorrectMode),
            _ => Ok(read_bit_low(input, N)),
        }
    }

    /// Is the input pin high? `input` is the word read from the input
    /// register of the port. A push-pull output cannot be read.
    pub fn is_high(&self, input: u32) -> (high: Result<bool, PinModeError>)
        ensures
            self.mode() != Dynamic::OutputPushPull ==> high == Ok::<bool, PinModeError>(
                !bit_is_low(input, N),
            ),
            self.mode() == Dynamic::OutputPushPull ==> high == Err::<bool, PinModeError>(
                PinModeError::IncorrectMode,
            ),
    {
        match self.is_low(input) {
            Ok(low) => Ok(!low),
            Err(e) => Err(e),
        }
    }
}

} // verus!
