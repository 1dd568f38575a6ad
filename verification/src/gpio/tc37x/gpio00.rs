//! Port 0 and its sixteen pins.

use super::super::partially_erased::PartiallyErasedPin;
use super::super::{DefaultMode, GpioExt, Pin};
use vstd::prelude::*;

verus! {

/// The register block of port 0, not yet split into pins.
pub struct Port00;

/// GPIO parts.
pub struct Parts {
    /// Pin 0 of the port.
    pub p00_0: P00_0,
    /// Pin 1 of the port.
    pub p00_1: P00_1,
    /// Pin 2 of the port.
    pub p00_2: P00_2,
    /// Pin 3 of the port.
    pub p00_3: P00_3,
    /// Pin 4 of the port.
    pub p00_4: P00_4,
    /// Pin 5 of the port.
    pub p00_5: P00_5,
    /// Pin 6 of the port.
    pub p00_6: P00_6,
    /// Pin 7 of the port.
    pub p00_7: P00_7,
    /// Pin 8 of the port.
    pub p00_8: P00_8,
    /// Pin 9 of the port.
    pub p00_9: P00_9,
    /// Pin 10 of the port.
    pub p00_10: P00_10,
    /// Pin 11 of the port.
    pub p00_11: P00_11,
    /// Pin 12 of the port.
    pub p00_12: P00_12,
    /// Pin 13 of the port.
    pub p00_13: P00_13,
    /// Pin 14 of the port.
    pub p00_14: P00_14,
    /// Pin 15 of the port.
    pub p00_15: P00_15,
}

impl GpioExt for Port00 {
    type Parts = Parts;

    /// Hands out the sixteen pins of the port, each in the mode it has
    /// after reset.
    fn split(self) -> Parts {
        Parts {
            p00_0: Pin::new(),
            p00_1: Pin::new(),
            p00_2: Pin::new(),
            p00_3: Pin::new(),
            p00_4: Pin::new(),
            p00_5: Pin::new(),
            p00_6: Pin::new(),
            p00_7: Pin::new(),
            p00_8: Pin::new(),
            p00_9: Pin::new(),
            p00_10: Pin::new(),
            p00_11: Pin::new(),
            p00_12: Pin::new(),
            p00_13: Pin::new(),
            p00_14: Pin::new(),
            p00_15: Pin::new(),
        }
    }
}

/// Common type for the pins of port 0.
pub type P00n<MODE> = PartiallyErasedPin<0, MODE>;

/// Pin 0 of port 0.
pub type P00_0<MODE = DefaultMode> = Pin<0, 0, MODE>;

/// Pin 1 of port 0.
pub type P00_1<MODE = DefaultMode> = Pin<0, 1, MODE>;

/// Pin 2 of port 0.
pub type P00_2<MODE = DefaultMode> = Pin<0, 2, MODE>;

/// Pin 3 of port 0.
pub type P00_3<MODE = DefaultMode> = Pin<0, 3, MODE>;

/// Pin 4 of port 0.
pub type P00_4<MODE = DefaultMode> = Pin<0, 4, MODE>;

/// Pin 5 of port 0.
pub type P00_5<MODE = DefaultMode> = Pin<0, 5, MODE>;

/// Pin 6 of port 0.
pub type P00_6<MODE = DefaultMode> = Pin<0, 6, MODE>;

/// Pin 7 of port 0.
pub type P00_7<MODE = DefaultMode> = Pin<0, 7, MODE>;

/// Pin 8 of port 0.
pub type P00_8<MODE = DefaultMode> = Pin<0, 8, MODE>;

/// Pin 9 of port 0.
pub type P00_9<MODE = DefaultMode> = Pin<0, 9, MODE>;

/// Pin 10 of port 0.
pub type P00_10<MODE = DefaultMode> = Pin<0, 10, MODE>;

/// Pin 11 of port 0.
pub type P00_11<MODE = DefaultMode> = Pin<0, 11, MODE>;

/// Pin 12 of port 0.
pub type P00_12<MODE = DefaultMode> = Pin<0, 12, MODE>;

/// Pin 13 of port 0.
pub type P00_13<MODE = DefaultMode> = Pin<0, 13, MODE>;

/// Pin 14 of port 0.
pub type P00_14<MODE = DefaultMode> = Pin<0, 14, MODE>;

/// Pin 15 of port 0.
pub type P00_15<MODE = DefaultMode> = Pin<0, 15, MODE>;

} // verus!
