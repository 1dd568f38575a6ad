//! Pins whose number is kept at run time.

use super::block::{MAX_BASE, PINS};
use super::{known_port, port_base, port_base_of, Pin, PinExt};
use core::marker::PhantomData;
use vstd::prelude::*;

verus! {

/// A pin of port `P`, with its number.
pub type PEPin<const P: usize, MODE> = PartiallyErasedPin<P, MODE>;

/// Partially erased pin.
///
/// - `MODE` is one of the pin modes.
/// - `P` is the port number.
pub struct PartiallyErasedPin<const P: usize, MODE> {
    pub(crate) i: u8,
    _mode: PhantomData<MODE>,
}

impl<const P: usize, MODE> PartiallyErasedPin<P, MODE> {
    /// Number of the pin within its port.
    pub closed spec fn index(&self) -> u8 {
        self.i
    }

    #[verifier::type_invariant]
    closed spec fn on_chip(&self) -> bool {
        self.i < PINS && known_port(P as int)
    }

    pub(crate) fn new(i: u8) -> (erased: Self)
        requires
            i < PINS,
            known_port(P as int),
        ensures
            erased.index() == i,
    {
        Self { i, _mode: PhantomData }
    }

    /// The same pin in another mode.
    pub(crate) fn renew<M>(from: &PartiallyErasedPin<P, M>) -> (erased: Self)
        ensures
            erased.index() == from.index(),
    {
        proof {
            use_type_invariant(from);
        }
        Self { i: from.i, _mode: PhantomData }
    }

    /// Address of the register block of the pin's port.
    pub fn block(&self) -> (base: u32)
        ensures
            base == port_base(P as int),
            base <= MAX_BASE,
    {
        proof {
            use_type_invariant(self);
        }
        let port: usize = P;
        port_base_of(port as u8)
    }

    /// The typed pin that this pin stands for, if that is pin `N`; else the
    /// erased pin, unchanged. No register is involved.
    pub fn restore<const N: u8>(self) -> (pin: Result<Pin<P, N, MODE>, Self>)
        ensures
            self.index() == N <==> pin is Ok,
            pin matches Err(erased) ==> erased == self,
    {
        proof {
            use_type_invariant(&self);
        }
        if self.i == N {
            Ok(Pin::new())
        } else {
            Err(self)
        }
    }
}

impl<const P: usize, MODE> PinExt for PartiallyErasedPin<P, MODE> {
    type Mode = MODE;

    fn pin_id(&self) -> (id: u8)
        ensures
            id == self.index(),
            id < PINS,
    {
        proof {
            use_type_invariant(self);
        }
        self.i
    }

    fn port_id(&self) -> (id: u8)
        ensures
            id == P,
    {
        proof {
            use_type_invariant(self);
        }
        let port: usize = P;
        port as u8
    }
}

impl<const P: usize, const N: u8, MODE> From<Pin<P, N, MODE>> for PartiallyErasedPin<P, MODE> {
    /// Pin-to-partially erased pin conversion using the [`From`] trait.
    fn from(p: Pin<P, N, MODE>) -> (erased: Self)
        ensures
            erased.index() == N,
    {
        p.erase_number()
    }
}

impl<const P: usize, const N: u8, MODE> vstd::std_specs::convert::FromSpecImpl<Pin<P, N, MODE>> for PartiallyErasedPin<P, MODE> {
    open spec fn obeys_from_spec() -> bool {
        true
    }

    closed spec fn from_spec(p: Pin<P, N, MODE>) -> Self {
        PartiallyErasedPin { i: N, _mode: PhantomData }
    }
}

} // verus!
