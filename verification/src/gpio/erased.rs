//! Pins whose port and number are kept at run time.

use super::block::{MAX_BASE, PINS};
use super::{known_port, port_base, port_base_of, Pin, PinExt};
use core::marker::PhantomData;
use vstd::prelude::*;

verus! {

/// A pin of any port, with its number.
pub type EPin<MODE> = ErasedPin<MODE>;

/// Fully erased pin.
///
/// `MODE` is one of the pin modes.
pub struct ErasedPin<MODE> {
    port: u8,
    pin: u8,
    _mode: PhantomData<MODE>,
}

/// The typed pin asked for is not the one that the erased pin stands for.
#[derive(Clone, Copy, Debug, PartialEq, Eq, Structural)]
pub struct PinMismatch;

impl<MODE> ErasedPin<MODE> {
    /// Number of the port the pin belongs to.
    pub closed spec fn port(&self) -> u8 {
        self.port
    }

    /// Number of the pin within its port.
    pub closed spec fn index(&self) -> u8 {
        self.pin
    }

    #[verifier::type_invariant]
    closed spec fn on_chip(&self) -> bool {
        self.pin < PINS && known_port(self.port as int)
    }

    pub(crate) fn new(port: u8, pin: u8) -> (erased: Self)
        requires
            pin < PINS,
            known_port(port as int),
        ensures
            erased.port() == port,
            erased.index() == pin,
    {
        Self { port, pin, _mode: PhantomData }
    }

    /// The port and the number of a pin, which is used up.
    pub(crate) fn into_pin_port(self) -> (id: (u8, u8))
        ensures
            id == (self.port(), self.index()),
            id.1 < PINS,
            known_port(id.0 as int),
    {
        proof {
            use_type_invariant(&self);
        }
        (self.port, self.pin)
    }

    /// The pin with the port and the number given.
    pub(crate) fn from_pin_port(id: (u8, u8)) -> (erased: Self)
        requires
            id.1 < PINS,
            known_port(id.0 as int),
        ensures
            erased.port() == id.0,
            erased.index() == id.1,
    {
        Self { port: id.0, pin: id.1, _mode: PhantomData }
    }

    /// Address of the register block of the pin's port.
    pub fn block(&self) -> (base: u32)
        ensures
            base == port_base(self.port() as int),
            base <= MAX_BASE,
    {
        proof {
            use_type_invariant(self);
        }
        port_base_of(self.port)
    }

    /// The typed pin that this pin stands for, if that is pin `N` of port
    /// `P`; else the erased pin, unchanged. No register is involved.
    pub fn restore<const P: usize, const N: u8>(self) -> (pin: Result<Pin<P, N, MODE>, Self>)
        ensures
            (self.port() == P && self.index() == N) <==> pin is Ok,
            pin matches Err(erased) ==> erased == self,
    {
        proof {
            use_type_invariant(&self);
        }
        let port: usize = P;
        if self.port as usize == port && self.pin == N {
            Ok(Pin::new())
        } else {
            Err(self)
        }
    }
}

impl<MODE> PinExt for ErasedPin<MODE> {
    type Mode = MODE;

    fn pin_id(&self) -> (id: u8)
        ensures
            id == self.index(),
            id < PINS,
    {
        proof {
            use_type_invariant(self);
        }
        self.pin
    }

    fn port_id(&self) -> (id: u8)
        ensures
            id == self.port(),
    {
        self.port
    }
}

impl<const P: usize, const N: u8, MODE> TryFrom<ErasedPin<MODE>> for Pin<P, N, MODE> {
    type Error = PinMismatch;

    /// Erased pin-to-pin conversion. It fails where the erased pin is not
    /// pin `N` of port `P`. No register is involved.
    fn try_from(erased: ErasedPin<MODE>) -> (pin: Result<Self, PinMismatch>)
        ensures
            (erased.port() == P && erased.index() == N) <==> pin is Ok,
    {
        match erased.restore::<P, N>() {
            Ok(pin) => Ok(pin),
            Err(_) => Err(PinMismatch),
        }
    }
}

impl<const P: usize, const N: u8, MODE> vstd::std_specs::convert::TryFromSpecImpl<ErasedPin<MODE>> for Pin<P, N, MODE> {
    open spec fn obeys_try_from_spec() -> bool {
        true
    }

    closed spec fn try_from_spec(erased: ErasedPin<MODE>) -> Result<Self, PinMismatch> {
        if erased.port == P && erased.pin == N {
            Ok(Pin { _mode: PhantomData })
        } else {
            Err(PinMismatch)
        }
    }
}

impl<const P: usize, const N: u8, MODE> From<Pin<P, N, MODE>> for ErasedPin<MODE> {
    /// Pin-to-erased pin conversion using the [`From`] trait.
    fn from(p: Pin<P, N, MODE>) -> (erased: Self)
        ensures
            erased.port() == P,
            erased.index() == N,
    {
        p.erase()
    }
}

impl<const P: usize, const N: u8, MODE> vstd::std_specs::convert::FromSpecImpl<Pin<P, N, MODE>> for ErasedPin<MODE> {
    open spec fn obeys_from_spec() -> bool {
        true
    }

    closed spec fn from_spec(p: Pin<P, N, MODE>) -> Self {
        ErasedPin { port: P as u8, pin: N, _mode: PhantomData }
    }
}

} // verus!
