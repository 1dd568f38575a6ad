//! Changing the mode of a pin.
//!
//! Every change of mode, of a typed pin or of an erased one, for good or
//! for the time of a closure, is the same single transaction: a masked
//! atomic write to the byte of the pin in its control register. Where the
//! pin is in the wanted mode already, nothing is written.

use super::block::{
    iocr_addr, lane_shift, lemma_lane_overwrite, lemma_lane_unchanged, lemma_mode_write_isolated,
    mode_write, mode_write_op, pin_code, MAX_BASE, PINS,
};
use super::dynamic::{Dynamic, DynamicPin};
use super::erased::ErasedPin;
use super::marker::IntoAf;
use super::partially_erased::PartiallyErasedPin;
use super::{
    level_write, port_base, Alternate, Analog, Input, OpenDrain, Output, Pin,
    PinExt, PinState, Pull, PushPull,
};
use crate::reg::{
    apply_all, lemma_apply_concat, lemma_apply_one, lemma_untouched, same_words, word_at, RegOp,
};
use core::marker::PhantomData;
use vstd::prelude::*;

verus! {

/// Marker trait for valid pin modes (type state).
///
/// It can not be implemented by outside types.
pub trait PinMode: crate::Sealed {
    /// The code that the control register holds for a pin in this mode.
    const MODE: u8;
}

impl crate::Sealed for Input {

}

impl PinMode for Input {
    const MODE: u8 = 0x00;
}

impl crate::Sealed for Analog {

}

impl PinMode for Analog {
    const MODE: u8 = 0x00;
}

impl<Otype> crate::Sealed for Output<Otype> {

}

impl PinMode for Output<OpenDrain> {
    const MODE: u8 = 0xC0;
}

impl PinMode for Output<PushPull> {
    const MODE: u8 = 0x80;
}

impl<const A: u8, Otype> crate::Sealed for Alternate<A, Otype> {

}

impl<const A: u8> PinMode for Alternate<A, OpenDrain> {
    const MODE: u8 = 0xC0 | (A << 3);
}

impl<const A: u8> PinMode for Alternate<A, PushPull> {
    const MODE: u8 = 0x80 | (A << 3);
}

impl<const P: usize, const N: u8, MODE> IntoAf<0> for Pin<P, N, MODE> {

}

impl<const P: usize, const N: u8, MODE> IntoAf<1> for Pin<P, N, MODE> {

}

impl<const P: usize, const N: u8, MODE> IntoAf<2> for Pin<P, N, MODE> {

}

impl<const P: usize, const N: u8, MODE> IntoAf<3> for Pin<P, N, MODE> {

}

impl<const P: usize, const N: u8, MODE> IntoAf<4> for Pin<P, N, MODE> {

}

impl<const P: usize, const N: u8, MODE> IntoAf<5> for Pin<P, N, MODE> {

}

impl<const P: usize, const N: u8, MODE> IntoAf<6> for Pin<P, N, MODE> {

}

impl<const P: usize, const N: u8, MODE> IntoAf<7> for Pin<P, N, MODE> {

}

/// Transactions that take pin `n` of the port at `base` from the mode with
/// code `from` to the mode with code `to`: none where the two are the same,
/// else the one masked atomic write of the new code.
pub open spec fn mode_change(base: u32, n: u8, from: u8, to: u8) -> Seq<RegOp> {
    if from == to {
        Seq::empty()
    } else {
        seq![mode_write(base, n, to as u32)]
    }
}

/// Transactions that make a pin an output: first the write that gives the
/// output its level, so that the pin drives that level from the moment it
/// becomes an output, then the change of mode.
pub open spec fn output_change(base: u32, n: u8, state: PinState, from: u8, to: u8) -> Seq<
    RegOp,
> {
    seq![level_write(base, n, state)] + mode_change(base, n, from, to)
}

/// Transactions that make a pin an output that starts low: none where the
/// pin is in that mode already, so that an output that drives high is not
/// forced low by a conversion that changes nothing; else the write that
/// sets the level low, then the change of mode.
pub open spec fn low_output_change(base: u32, n: u8, from: u8, to: u8) -> Seq<RegOp> {
    if from == to {
        Seq::empty()
    } else {
        output_change(base, n, PinState::Low, from, to)
    }
}

/// Appends [`mode_change`].
pub(crate) fn change_mode(base: u32, n: u8, from: u8, to: u8, ops: &mut Vec<RegOp>)
    requires
        n < PINS,
        base <= MAX_BASE,
    ensures
        final(ops)@ == old(ops)@ + mode_change(base, n, from, to),
        from == to ==> final(ops)@ == old(ops)@,
{
    if from == to {
        // Avoid side effects when mode is not changed
        assert(ops@ =~= old(ops)@ + mode_change(base, n, from, to));
        return ;
    }
    let mode: u32 = to as u32;
    ops.push(mode_write_op(base, n, mode));
    assert(ops@ =~= old(ops)@ + mode_change(base, n, from, to));
}

impl<const P: usize, const N: u8, const A: u8> Pin<P, N, Alternate<A, PushPull>> {
    /// Turns pin alternate configuration pin into open drain.
    pub fn set_open_drain(self, ops: &mut Vec<RegOp>) -> (pin: Pin<P, N, Alternate<A, OpenDrain>>)
        ensures
            final(ops)@ == old(ops)@ + mode_change(
                port_base(P as int),
                N,
                Alternate::<A, PushPull>::MODE,
                Alternate::<A, OpenDrain>::MODE,
            ),
    {
        self.into_mode(ops)
    }
}

impl<const P: usize, const N: u8, MODE: PinMode> Pin<P, N, MODE> {
    /// Configures the pin to operate alternate mode.
    pub fn into_alternate<const A: u8>(self, ops: &mut Vec<RegOp>) -> (pin: Pin<
        P,
        N,
        Alternate<A, PushPull>,
    >) where Self: IntoAf<A>
        ensures
            final(ops)@ == old(ops)@ + mode_change(
                port_base(P as int),
                N,
                MODE::MODE,
                Alternate::<A, PushPull>::MODE,
            ),
    {
        self.into_mode(ops)
    }

    /// Configures the pin to operate in alternate open drain mode.
    pub fn into_alternate_open_drain<const A: u8>(self, ops: &mut Vec<RegOp>) -> (pin: Pin<
        P,
        N,
        Alternate<A, OpenDrain>,
    >) where Self: IntoAf<A>
        ensures
            final(ops)@ == old(ops)@ + mode_change(
                port_base(P as int),
                N,
                MODE::MODE,
                Alternate::<A, OpenDrain>::MODE,
            ),
    {
        self.into_mode(ops)
    }

    /// Configures the pin to operate as a input pin.
    pub fn into_input(self, ops: &mut Vec<RegOp>) -> (pin: Pin<P, N, Input>)
        ensures
            final(ops)@ == old(ops)@ + mode_change(port_base(P as int), N, MODE::MODE, Input::MODE),
    {
        self.into_mode(ops)
    }

    /// Configures the pin to operate as a floating input pin: the code
    /// written is that of an input without a pull device.
    pub fn into_floating_input(self, ops: &mut Vec<RegOp>) -> (pin: Pin<P, N, Input>)
        ensures
            final(ops)@ == old(ops)@ + mode_change(port_base(P as int), N, MODE::MODE, Input::MODE),
    {
        self.into_mode(ops).internal_resistor(Pull::Floating)
    }

    /// Configures the pin to operate as an input pin and asks for the pull
    /// down. The code written is that of an input without a pull device,
    /// as for every pin in mode [`Input`], and asking for the pull issues no
    /// transaction (see [`Pin::set_internal_resistor`]): the pin floats. A
    /// pulled input is what a dynamic pin or
    /// [`Port::set_pin_mode_input`](crate::uart::ports::Port::set_pin_mode_input)
    /// gives.
    pub fn into_pull_down_input(self, ops: &mut Vec<RegOp>) -> (pin: Pin<P, N, Input>)
        ensures
            final(ops)@ == old(ops)@ + mode_change(port_base(P as int), N, MODE::MODE, Input::MODE),
    {
        self.into_mode(ops).internal_resistor(Pull::Down)
    }

    /// Configures the pin to operate as an input pin and asks for the pull
    /// up. The code written is that of an input without a pull device, as
    /// for every pin in mode [`Input`], and asking for the pull issues no
    /// transaction (see [`Pin::set_internal_resistor`]): the pin floats. A
    /// pulled input is what a dynamic pin or
    /// [`Port::set_pin_mode_input`](crate::uart::ports::Port::set_pin_mode_input)
    /// gives.
    pub fn into_pull_up_input(self, ops: &mut Vec<RegOp>) -> (pin: Pin<P, N, Input>)
        ensures
            final(ops)@ == old(ops)@ + mode_change(port_base(P as int), N, MODE::MODE, Input::MODE),
    {
        self.into_mode(ops).internal_resistor(Pull::Up)
    }

    /// Configures the pin to operate as an open drain output pin. Its
    /// initial state will be low. A pin that is in that mode already is
    /// left alone, level and all: no register is written.
    pub fn into_open_drain_output(self, ops: &mut Vec<RegOp>) -> (pin: Pin<
        P,
        N,
        Output<OpenDrain>,
    >)
        ensures
            final(ops)@ == old(ops)@ + low_output_change(
                port_base(P as int),
                N,
                MODE::MODE,
                Output::<OpenDrain>::MODE,
            ),
            MODE::MODE == Output::<OpenDrain>::MODE ==> final(ops)@ == old(ops)@,
    {
        if MODE::MODE == Output::<OpenDrain>::MODE {
            // Avoid side effects when mode is not changed
            proof {
                use_type_invariant(&self);
                assert(ops@ =~= old(ops)@ + Seq::<RegOp>::empty());
            }
            return Pin::new();
        }
        self.into_open_drain_output_in_state(PinState::Low, ops)
    }

    /// Configures the pin to operate as an open-drain output pin.
    /// `initial_state` specifies whether the pin should be initially high or
    /// low; that level is written whatever mode the pin is in.
    pub fn into_open_drain_output_in_state(
        self,
        initial_state: PinState,
        ops: &mut Vec<RegOp>,
    ) -> (pin: Pin<P, N, Output<OpenDrain>>)
        ensures
            final(ops)@ == old(ops)@ + output_change(
                port_base(P as int),
                N,
                initial_state,
                MODE::MODE,
                Output::<OpenDrain>::MODE,
            ),
    {
        let mut pin = self;
        pin._set_state(initial_state, ops);
        let ghost mid = ops@;
        let pin = pin.into_mode(ops);
        proof {
            let base = port_base(P as int);
            let change = mode_change(base, N, MODE::MODE, Output::<OpenDrain>::MODE);
            assert(mid + change =~= old(ops)@ + (seq![level_write(base, N, initial_state)]
                + change));
        }
        pin
    }

    /// Configures the pin to operate as an push pull output pin. Its
    /// initial state will be low. A pin that is in that mode already is
    /// left alone, level and all: no register is written.
    pub fn into_push_pull_output(self, ops: &mut Vec<RegOp>) -> (pin: Pin<
        P,
        N,
        Output<PushPull>,
    >)
        ensures
            final(ops)@ == old(ops)@ + low_output_change(
                port_base(P as int),
                N,
                MODE::MODE,
                Output::<PushPull>::MODE,
            ),
            MODE::MODE == Output::<PushPull>::MODE ==> final(ops)@ == old(ops)@,
    {
        if MODE::MODE == Output::<PushPull>::MODE {
            // Avoid side effects when mode is not changed
            proof {
                use_type_invariant(&self);
                assert(ops@ =~= old(ops)@ + Seq::<RegOp>::empty());
            }
            return Pin::new();
        }
        self.into_push_pull_output_in_state(PinState::Low, ops)
    }

    /// Configures the pin to operate as an push-pull output pin.
    /// `initial_state` specifies whether the pin should be initially high or
    /// low; that level is written whatever mode the pin is in.
    pub fn into_push_pull_output_in_state(
        self,
        initial_state: PinState,
        ops: &mut Vec<RegOp>,
    ) -> (pin: Pin<P, N, Output<PushPull>>)
        ensures
            final(ops)@ == old(ops)@ + output_change(
                port_base(P as int),
                N,
                initial_state,
                MODE::MODE,
                Output::<PushPull>::MODE,
            ),
    {
        let mut pin = self;
        pin._set_state(initial_state, ops);
        let ghost mid = ops@;
        let pin = pin.into_mode(ops);
        proof {
            let base = port_base(P as int);
            let change = mode_change(base, N, MODE::MODE, Output::<PushPull>::MODE);
            assert(mid + change =~= old(ops)@ + (seq![level_write(base, N, initial_state)]
                + change));
        }
        pin
    }

    /// Configures the pin to operate as an analog input pin.
    pub fn into_analog(self, ops: &mut Vec<RegOp>) -> (pin: Pin<P, N, Analog>)
        ensures
            final(ops)@ == old(ops)@ + mode_change(
                port_base(P as int),
                N,
                MODE::MODE,
                Analog::MODE,
            ),
    {
        self.into_mode(ops)
    }

    /// Configures the pin as a pin that can change between input and output
    /// without changing the type. It starts out as a floating input.
    pub fn into_dynamic(self, ops: &mut Vec<RegOp>) -> (pin: DynamicPin<P, N>)
        ensures
            final(ops)@ == old(ops)@ + mode_change(port_base(P as int), N, MODE::MODE, Input::MODE),
            pin.mode() == Dynamic::InputFloating,
    {
        proof {
            use_type_invariant(&self);
        }
        let _ = self.into_floating_input(ops);
        DynamicPin::new(Dynamic::InputFloating)
    }

    /// Puts `self` into mode `M`.
    ///
    /// This violates the type state constraints from `MODE`, so callers must
    /// ensure they use this properly.
    pub(crate) fn mode<M: PinMode>(&mut self, ops: &mut Vec<RegOp>)
        ensures
            final(ops)@ == old(ops)@ + mode_change(port_base(P as int), N, MODE::MODE, M::MODE),
            MODE::MODE == M::MODE ==> final(ops)@ == old(ops)@,
    {
        let base = self.block();
        change_mode(base, N, MODE::MODE, M::MODE, ops);
    }

    /// Converts pin into specified mode. Where the pin is in that mode
    /// already, no register is written.
    pub fn into_mode<M: PinMode>(self, ops: &mut Vec<RegOp>) -> (pin: Pin<P, N, M>)
        ensures
            final(ops)@ == old(ops)@ + mode_change(port_base(P as int), N, MODE::MODE, M::MODE),
            MODE::MODE == M::MODE ==> final(ops)@ == old(ops)@,
    {
        proof {
            use_type_invariant(&self);
        }
        let mut pin = self;
        pin.mode::<M>(ops);
        Pin::new()
    }
}

impl<MODE: PinMode> ErasedPin<MODE> {
    pub(crate) fn mode<M: PinMode>(&mut self, ops: &mut Vec<RegOp>)
        ensures
            final(ops)@ == old(ops)@ + mode_change(
                port_base(old(self).port() as int),
                old(self).index(),
                MODE::MODE,
                M::MODE,
            ),
            MODE::MODE == M::MODE ==> final(ops)@ == old(ops)@,
            *final(self) == *old(self),
    {
        let n = self.pin_id();
        let base = self.block();
        change_mode(base, n, MODE::MODE, M::MODE, ops);
    }

    /// Converts pin into specified mode. Where the pin is in that mode
    /// already, no register is written.
    pub fn into_mode<M: PinMode>(self, ops: &mut Vec<RegOp>) -> (pin: ErasedPin<M>)
        ensures
            final(ops)@ == old(ops)@ + mode_change(
                port_base(self.port() as int),
                self.index(),
                MODE::MODE,
                M::MODE,
            ),
            MODE::MODE == M::MODE ==> final(ops)@ == old(ops)@,
            pin.port() == self.port(),
            pin.index() == self.index(),
    {
        let mut pin = self;
        pin.mode::<M>(ops);
        ErasedPin::from_pin_port(pin.into_pin_port())
    }
}

impl<const P: usize, MODE: PinMode> PartiallyErasedPin<P, MODE> {
    pub(crate) fn mode<M: PinMode>(&mut self, ops: &mut Vec<RegOp>)
        ensures
            final(ops)@ == old(ops)@ + mode_change(
                port_base(P as int),
                old(self).index(),
                MODE::MODE,
                M::MODE,
            ),
            MODE::MODE == M::MODE ==> final(ops)@ == old(ops)@,
            *final(self) == *old(self),
    {
        let n = self.pin_id();
        let base = self.block();
        change_mode(base, n, MODE::MODE, M::MODE, ops);
    }

    /// Converts pin into specified mode. Where the pin is in that mode
    /// already, no register is written.
    pub fn into_mode<M: PinMode>(self, ops: &mut Vec<RegOp>) -> (pin: PartiallyErasedPin<P, M>)
        ensures
            final(ops)@ == old(ops)@ + mode_change(
                port_base(P as int),
                self.index(),
                MODE::MODE,
                M::MODE,
            ),
            MODE::MODE == M::MODE ==> final(ops)@ == old(ops)@,
            pin.index() == self.index(),
    {
        let mut pin = self;
        pin.mode::<M>(ops);
        PartiallyErasedPin::renew(&pin)
    }
}

/// Wrapper around a pin that is in mode `CURRENT` for a while and goes back
/// to mode `ORIG` when it is released.
pub(crate) struct ResetMode<const P: usize, const N: u8, CURRENT: PinMode, ORIG: PinMode> {
    pub pin: Pin<P, N, CURRENT>,
    _mode: PhantomData<ORIG>,
}

impl<const P: usize, const N: u8, CURRENT: PinMode, ORIG: PinMode> ResetMode<P, N, CURRENT, ORIG> {
    pub(crate) fn new() -> Self
        requires
            N < PINS,
            super::known_port(P as int),
    {
        Self { pin: Pin::new(), _mode: PhantomData }
    }

    /// Puts the pin back into mode `ORIG`.
    pub(crate) fn release(self, ops: &mut Vec<RegOp>)
        ensures
            final(ops)@ == old(ops)@ + mode_change(
                port_base(P as int),
                N,
                CURRENT::MODE,
                ORIG::MODE,
            ),
    {
        let mut guard = self;
        guard.pin.mode::<ORIG>(ops);
    }
}

/// Whether `f` can be called with a pin in mode `M` and a queue that holds
/// `queue`.
pub open spec fn takes<const P: usize, const N: u8, M, F, R>(f: F, queue: Seq<RegOp>) -> bool where
    F: FnOnce(&mut Pin<P, N, M>, &mut Vec<RegOp>) -> R,
 {
    forall|pin: &mut Pin<P, N, M>, ops: &mut Vec<RegOp>|
        ops@ == queue ==> call_requires(f, (pin, ops))
}

impl<const P: usize, const N: u8, MODE> Pin<P, N, MODE> where MODE: PinMode {
    /// The transactions that put the pin back into its own mode after it has
    /// been in mode `M` for a while: what the `with_<mode>` functions queue
    /// once their closure has returned. They queue it on a normal return
    /// only; whoever runs a closure that may unwind takes the transactions
    /// from here before the closure runs, and performs them where it does.
    pub fn restore_after<M: PinMode>(&self) -> (ops: Vec<RegOp>)
        ensures
            ops@ == mode_change(port_base(P as int), N, M::MODE, MODE::MODE),
    {
        let mut ops: Vec<RegOp> = Vec::new();
        let base = self.block();
        change_mode(base, N, M::MODE, MODE::MODE, &mut ops);
        assert(ops@ =~= mode_change(port_base(P as int), N, M::MODE, MODE::MODE));
        ops
    }

    /// Puts the pin into mode `M`, calls `f` with it, and puts it back into
    /// its own mode. The queue that `f` gets ends with the change to `M`;
    /// the change back follows whatever `f` leaves in the queue. It is
    /// queued when `f` has returned, early or not: where `f` unwinds,
    /// nothing is queued (see [`Pin::restore_after`]).
    pub(crate) fn with_mode<M, F, R>(&mut self, ops: &mut Vec<RegOp>, f: F) -> (r: R) where
        M: PinMode,
        F: FnOnce(&mut Pin<P, N, M>, &mut Vec<RegOp>) -> R,

        requires
            takes(f, old(ops)@ + mode_change(port_base(P as int), N, MODE::MODE, M::MODE)),
        ensures
            exists|pin: &mut Pin<P, N, _>, queue: &mut Vec<RegOp>|
                {
                    &&& queue@ == old(ops)@ + mode_change(port_base(P as int), N, MODE::MODE, M::MODE)
                    &&& call_ensures(f, (pin, queue), r)
                    &&& final(ops)@ == final(queue)@ + mode_change(port_base(P as int), N, M::MODE, MODE::MODE)
                },
    {
        proof {
            use_type_invariant(&*self);
        }
        self.mode::<M>(ops);  // change physical mode, without changing typestate
        // This will put the pin back into its own mode when released.
        let mut resetti = ResetMode::<P, N, M, MODE>::new();
        let r = f(&mut resetti.pin, ops);
        resetti.release(ops);
        r
    }

    /// Temporarily configures this pin as a input.
    ///
    /// The closure `f` is called with the reconfigured pin. After it
    /// returns, the pin will be configured back; where it unwinds, the
    /// change back is not queued (see [`Pin::restore_after`]).
    pub fn with_input<R, F>(&mut self, ops: &mut Vec<RegOp>, f: F) -> (r: R) where
        F: FnOnce(&mut Pin<P, N, Input>, &mut Vec<RegOp>) -> R,

        requires
            takes(f, old(ops)@ + mode_change(port_base(P as int), N, MODE::MODE, Input::MODE)),
        ensures
            exists|pin: &mut Pin<P, N, _>, queue: &mut Vec<RegOp>|
                {
                    &&& queue@ == old(ops)@ + mode_change(port_base(P as int), N, MODE::MODE, Input::MODE)
                    &&& call_ensures(f, (pin, queue), r)
                    &&& final(ops)@ == final(queue)@ + mode_change(port_base(P as int), N, Input::MODE, MODE::MODE)
                },
    {
        self.with_mode(ops, f)
    }

    /// Temporarily configures this pin as an analog pin.
    ///
    /// The closure `f` is called with the reconfigured pin. After it
    /// returns, the pin will be configured back; where it unwinds, the
    /// change back is not queued (see [`Pin::restore_after`]).
    pub fn with_analog<R, F>(&mut self, ops: &mut Vec<RegOp>, f: F) -> (r: R) where
        F: FnOnce(&mut Pin<P, N, Analog>, &mut Vec<RegOp>) -> R,

        requires
            takes(f, old(ops)@ + mode_change(port_base(P as int), N, MODE::MODE, Analog::MODE)),
        ensures
            exists|pin: &mut Pin<P, N, _>, queue: &mut Vec<RegOp>|
                {
                    &&& queue@ == old(ops)@ + mode_change(port_base(P as int), N, MODE::MODE, Analog::MODE)
                    &&& call_ensures(f, (pin, queue), r)
                    &&& final(ops)@ == final(queue)@ + mode_change(port_base(P as int), N, Analog::MODE, MODE::MODE)
                },
    {
        self.with_mode(ops, f)
    }

    /// Temporarily configures this pin as an open drain output.
    ///
    /// The closure `f` is called with the reconfigured pin. After it
    /// returns, the pin will be configured back; where it unwinds, the
    /// change back is not queued (see [`Pin::restore_after`]). The level of the pin
    /// after conversion is whatever its output was set to last. If you
    /// want to control it, use `with_open_drain_output_in_state`.
    pub fn with_open_drain_output<R, F>(&mut self, ops: &mut Vec<RegOp>, f: F) -> (r: R) where
        F: FnOnce(&mut Pin<P, N, Output<OpenDrain>>, &mut Vec<RegOp>) -> R,

        requires
            takes(f, old(ops)@ + mode_change(port_base(P as int), N, MODE::MODE, Output::<OpenDrain>::MODE)),
        ensures
            exists|pin: &mut Pin<P, N, _>, queue: &mut Vec<RegOp>|
                {
                    &&& queue@ == old(ops)@ + mode_change(port_base(P as int), N, MODE::MODE, Output::<OpenDrain>::MODE)
                    &&& call_ensures(f, (pin, queue), r)
                    &&& final(ops)@ == final(queue)@ + mode_change(port_base(P as int), N, Output::<OpenDrain>::MODE, MODE::MODE)
                },
    {
        self.with_mode(ops, f)
    }

    /// Temporarily configures this pin as an open drain output.
    ///
    /// The closure `f` is called with the reconfigured pin. After it
    /// returns, the pin will be configured back; where it unwinds, the
    /// change back is not queued (see [`Pin::restore_after`]). Note that the new state
    /// is set slightly before conversion happens. This can cause a short
    /// output glitch if switching between output modes.
    pub fn with_open_drain_output_in_state<R, F>(&mut self, state: PinState, ops: &mut Vec<RegOp>, f: F) -> (r: R) where
        F: FnOnce(&mut Pin<P, N, Output<OpenDrain>>, &mut Vec<RegOp>) -> R,

        requires
            takes(f, old(ops)@ + output_change(port_base(P as int), N, state, MODE::MODE, Output::<OpenDrain>::MODE)),
        ensures
            exists|pin: &mut Pin<P, N, _>, queue: &mut Vec<RegOp>|
                {
                    &&& queue@ == old(ops)@ + output_change(port_base(P as int), N, state, MODE::MODE, Output::<OpenDrain>::MODE)
                    &&& call_ensures(f, (pin, queue), r)
                    &&& final(ops)@ == final(queue)@ + mode_change(port_base(P as int), N, Output::<OpenDrain>::MODE, MODE::MODE)
                },
    {
        self._set_state(state, ops);
        proof {
            let base = port_base(P as int);
            let change = mode_change(base, N, MODE::MODE, Output::<OpenDrain>::MODE);
            assert(ops@ + change =~= old(ops)@ + (seq![level_write(base, N, state)] + change));
        }
        self.with_mode(ops, f)
    }

    /// Temporarily configures this pin as a push-pull output.
    ///
    /// The closure `f` is called with the reconfigured pin. After it
    /// returns, the pin will be configured back; where it unwinds, the
    /// change back is not queued (see [`Pin::restore_after`]). The level of the pin
    /// after conversion is whatever its output was set to last. If you
    /// want to control it, use `with_push_pull_output_in_state`.
    pub fn with_push_pull_output<R, F>(&mut self, ops: &mut Vec<RegOp>, f: F) -> (r: R) where
        F: FnOnce(&mut Pin<P, N, Output<PushPull>>, &mut Vec<RegOp>) -> R,

        requires
            takes(f, old(ops)@ + mode_change(port_base(P as int), N, MODE::MODE, Output::<PushPull>::MODE)),
        ensures
            exists|pin: &mut Pin<P, N, _>, queue: &mut Vec<RegOp>|
                {
                    &&& queue@ == old(ops)@ + mode_change(port_base(P as int), N, MODE::MODE, Output::<PushPull>::MODE)
                    &&& call_ensures(f, (pin, queue), r)
                    &&& final(ops)@ == final(queue)@ + mode_change(port_base(P as int), N, Output::<PushPull>::MODE, MODE::MODE)
                },
    {
        self.with_mode(ops, f)
    }

    /// Temporarily configures this pin as a push-pull output.
    ///
    /// The closure `f` is called with the reconfigured pin. After it
    /// returns, the pin will be configured back; where it unwinds, the
    /// change back is not queued (see [`Pin::restore_after`]). Note that the new state
    /// is set slightly before conversion happens. This can cause a short
    /// output glitch if switching between output modes.
    pub fn with_push_pull_output_in_state<R, F>(&mut self, state: PinState, ops: &mut Vec<RegOp>, f: F) -> (r: R) where
        F: FnOnce(&mut Pin<P, N, Output<PushPull>>, &mut Vec<RegOp>) -> R,

        requires
            takes(f, old(ops)@ + output_change(port_base(P as int), N, state, MODE::MODE, Output::<PushPull>::MODE)),
        ensures
            exists|pin: &mut Pin<P, N, _>, queue: &mut Vec<RegOp>|
                {
                    &&& queue@ == old(ops)@ + output_change(port_base(P as int), N, state, MODE::MODE, Output::<PushPull>::MODE)
                    &&& call_ensures(f, (pin, queue), r)
                    &&& final(ops)@ == final(queue)@ + mode_change(port_base(P as int), N, Output::<PushPull>::MODE, MODE::MODE)
                },
    {
        self._set_state(state, ops);
        proof {
            let base = port_base(P as int);
            let change = mode_change(base, N, MODE::MODE, Output::<PushPull>::MODE);
            assert(ops@ + change =~= old(ops)@ + (seq![level_write(base, N, state)] + change));
        }
        self.with_mode(ops, f)
    }
}

/// The codes of the modes.
pub proof fn lemma_mode_codes()
    ensures
        Input::MODE == 0x00,
        Analog::MODE == 0x00,
        Output::<PushPull>::MODE == 0x80,
        Output::<OpenDrain>::MODE == 0xC0,
{
}

/// The codes of the alternate modes.
pub proof fn lemma_alternate_codes<const A: u8>()
    ensures
        Alternate::<A, PushPull>::MODE == 0x80u8 | (A << 3u8),
        Alternate::<A, OpenDrain>::MODE == 0xC0u8 | (A << 3u8),
{
}

/// The state that [`mode_change`] leaves: where the mode changes, the
/// register file after the one write; where it does not, the register file
/// as it was.
proof fn lemma_mode_change_applied(regs: Map<u32, u32>, base: u32, n: u8, from: u8, to: u8)
    ensures
        apply_all(mode_change(base, n, from, to), regs) == if from == to {
            regs
        } else {
            mode_write(base, n, to as u32).apply(regs)
        },
{
    if from != to {
        lemma_apply_one(mode_write(base, n, to as u32), regs);
    }
}

/// A mode code is the byte it is written as.
proof fn lemma_code_is_byte(code: u8)
    ensures
        (code as u32) & 0xFF == code as u32,
{
    let c = code as u32;
    assert(c & 0xFF == c) by (bit_vector)
        requires
            c < 256,
    ;
}

/// Idempotent no-op: a change to the mode a pin is in already issues no
/// transaction, and neither does making an output of a pin that is that
/// output already.
pub proof fn lemma_same_mode_writes_nothing(base: u32, n: u8, code: u8)
    ensures
        mode_change(base, n, code, code) == Seq::<RegOp>::empty(),
        low_output_change(base, n, code, code) == Seq::<RegOp>::empty(),
{
}

/// Masked-write isolation: a change of the mode of pin `n` leaves the
/// configuration bytes of all other pins of the port, and every other
/// register, bit for bit as they were.
pub proof fn lemma_mode_change_isolated(regs: Map<u32, u32>, base: u32, n: u8, from: u8, to: u8)
    requires
        n < PINS,
        base <= MAX_BASE,
    ensures
        forall|other: u8|
            other < PINS && other != n ==> #[trigger] pin_code(
                apply_all(mode_change(base, n, from, to), regs),
                base,
                other,
            ) == pin_code(regs, base, other),
        forall|addr: u32|
            addr != iocr_addr(base, n) ==> #[trigger] word_at(
                apply_all(mode_change(base, n, from, to), regs),
                addr,
            ) == word_at(regs, addr),
        from != to ==> pin_code(apply_all(mode_change(base, n, from, to), regs), base, n) == to,
{
    lemma_mode_change_applied(regs, base, n, from, to);
    lemma_mode_write_isolated(regs, base, n, to as u32);
    lemma_code_is_byte(to);
}

/// Mode round-trip: for a pin that is in the mode its type says, going to
/// mode `m`, on to another mode and back to `m` leaves every register with
/// the word that going to `m` directly leaves.
pub proof fn lemma_mode_round_trip(
    regs: Map<u32, u32>,
    base: u32,
    n: u8,
    origin: u8,
    m: u8,
    other: u8,
)
    requires
        n < PINS,
        base <= MAX_BASE,
        pin_code(regs, base, n) == origin,
    ensures
        same_words(
            apply_all(
                mode_change(base, n, origin, m) + mode_change(base, n, m, other) + mode_change(
                    base,
                    n,
                    other,
                    m,
                ),
                regs,
            ),
            apply_all(mode_change(base, n, origin, m), regs),
        ),
{
    let first = mode_change(base, n, origin, m);
    let there = mode_change(base, n, m, other);
    let back = mode_change(base, n, other, m);
    let addr = iocr_addr(base, n);
    let s = lane_shift(n);
    let direct = apply_all(first, regs);
    lemma_mode_change_applied(regs, base, n, origin, m);
    lemma_apply_concat(first, there, regs);
    lemma_apply_concat(first + there, back, regs);
    let mid = apply_all(there, direct);
    let end = apply_all(back, mid);
    lemma_mode_change_applied(direct, base, n, m, other);
    lemma_mode_change_applied(mid, base, n, other, m);
    if m != other {
        let w = word_at(direct, addr);
        lemma_lane_overwrite(w, other as u32, m as u32, s);
        // the direct state holds `m` in the lane of the pin
        if origin == m {
            assert(pin_code(direct, base, n) == m);
        } else {
            lemma_mode_write_isolated(regs, base, n, m as u32);
            lemma_code_is_byte(m);
        }
        lemma_lane_unchanged(w, m as u32, s);
        assert(word_at(end, addr) == w);
        assert forall|a: u32| word_at(end, a) == word_at(direct, a) by {
            if a != addr {
            }
        }
    }
}

/// Scoped-mode restoration: a pin that is in the mode its type says is put
/// into another mode for a while and back. Whatever is done in between, as
/// long as it leaves the control register of the pin alone, that register
/// holds afterwards the word it held before; every other register holds
/// what was done to it in between, after the change of mode.
pub proof fn lemma_scoped_mode_restores(
    regs: Map<u32, u32>,
    base: u32,
    n: u8,
    origin: u8,
    temporary: u8,
    between: Seq<RegOp>,
)
    requires
        n < PINS,
        base <= MAX_BASE,
        pin_code(regs, base, n) == origin,
        forall|i: int|
            0 <= i < between.len() ==> between[i].target() != Some(iocr_addr(base, n))
                || between[i] is Read,
    ensures
        word_at(
            apply_all(
                mode_change(base, n, origin, temporary) + between + mode_change(
                    base,
                    n,
                    temporary,
                    origin,
                ),
                regs,
            ),
            iocr_addr(base, n),
        ) == word_at(regs, iocr_addr(base, n)),
        forall|addr: u32|
            addr != iocr_addr(base, n) ==> #[trigger] word_at(
                apply_all(
                    mode_change(base, n, origin, temporary) + between + mode_change(
                        base,
                        n,
                        temporary,
                        origin,
                    ),
                    regs,
                ),
                addr,
            ) == word_at(
                apply_all(between, apply_all(mode_change(base, n, origin, temporary), regs)),
                addr,
            ),
{
    let enter = mode_change(base, n, origin, temporary);
    let leave = mode_change(base, n, temporary, origin);
    let addr = iocr_addr(base, n);
    let s = lane_shift(n);
    let entered = apply_all(enter, regs);
    let inside = apply_all(between, entered);
    lemma_mode_change_applied(regs, base, n, origin, temporary);
    lemma_apply_concat(enter, between, regs);
    lemma_apply_concat(enter + between, leave, regs);
    lemma_mode_change_applied(inside, base, n, temporary, origin);
    lemma_untouched(between, entered, addr);
    if origin != temporary {
        let w = word_at(regs, addr);
        lemma_lane_overwrite(w, temporary as u32, origin as u32, s);
        lemma_lane_unchanged(w, origin as u32, s);
    }
}

/// Scoped-mode restoration, where what is done in between only reads: every
/// register holds afterwards the word it held before.
pub proof fn lemma_scoped_mode_reading_restores(
    regs: Map<u32, u32>,
    base: u32,
    n: u8,
    origin: u8,
    temporary: u8,
    between: Seq<RegOp>,
)
    requires
        n < PINS,
        base <= MAX_BASE,
        pin_code(regs, base, n) == origin,
        forall|i: int| 0 <= i < between.len() ==> between[i] is Read,
    ensures
        same_words(
            apply_all(
                mode_change(base, n, origin, temporary) + between + mode_change(
                    base,
                    n,
                    temporary,
                    origin,
                ),
                regs,
            ),
            regs,
        ),
{
    let enter = mode_change(base, n, origin, temporary);
    let leave = mode_change(base, n, temporary, origin);
    let entered = apply_all(enter, regs);
    let end = apply_all(enter + between + leave, regs);
    lemma_scoped_mode_restores(regs, base, n, origin, temporary, between);
    lemma_mode_change_isolated(regs, base, n, origin, temporary);
    assert forall|a: u32| word_at(end, a) == word_at(regs, a) by {
        if a != iocr_addr(base, n) {
            lemma_untouched(between, entered, a);
        }
    }
}

} // verus!
