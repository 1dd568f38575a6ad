//! Port 1 and its sixteen pins.

use super::super::partially_erased::PartiallyErasedPin;
use super::super::{DefaultMode, GpioExt, Pin};
use vstd::prelude::*;

verus! {

/// The register block of port 1, not yet split into pins.
pub struct Port01;

/// GPIO parts.
pub struct Parts {
    /// Pin 0 of the port.
    pub p01_0: P01_0,
    /// Pin 1 of the port.
    pub p01_1: P01_1,
    /// Pin 2 of the port.
    pub p01_2: P01_2,
    /// Pin 3 of the port.
    pub p01_3: P01_3,
    /// Pin 4 of the port.
    pub p01_4: P01_4,
    /// Pin 5 of the port.
    pub p01_5: P01_5,
    /// Pin 6 of the port.
    pub p01_6: P01_6,
    /// Pin 7 of the port.
    pub p01_7: P01_7,
    /// Pin 8 of the port.
    pub p01_8: P01_8,
    /// Pin 9 of the port.
    pub p01_9: P01_9,
    /// Pin 10 of the port.
    pub p01_10: P01_10,
    /// Pin 11 of the port.
    pub p01_11: P01_11,
    /// Pin 12 of the port.
    pub p01_12: P01_12,
    /// Pin 13 of the port.
    pub p01_13: P01_13,
    /// Pin 14 of the port.
    pub p01_14: P01_14,
    /// Pin 15 of the port.
    pub p01_15: P01_15,
}

impl GpioExt for Port01 {
    type Parts = Parts;

    /// Hands out the sixteen pins of the port, each in the mode it has
    /// after reset.
    fn split(self) -> Parts {
        Parts {
            p01_0: Pin::new(),
            p01_1: Pin::new(),
            p01_2: Pin::new(),
            p01_3: Pin::new(),
            p01_4: Pin::new(),
            p01_5: Pin::new(),
            p01_6: Pin::new(),
            p01_7: Pin::new(),
            p01_8: Pin::new(),
            p01_9: Pin::new(),
            p01_10: Pin::new(),
            p01_11: Pin::new(),
            p01_12: Pin::new(),
            p01_13: Pin::new(),
            p01_14: Pin::new(),
            p01_15: Pin::new(),
        }
    }
}

/// Common type for the pins of port 1.
pub type P01n<MODE> = PartiallyErasedPin<1, MODE>;

/// Pin 0 of port 1.
pub type P01_0<MODE = DefaultMode> = Pin<1, 0, MODE>;

/// Pin 1 of port 1.
pub type P01_1<MODE = DefaultMode> = Pin<1, 1, MODE>;

/// Pin 2 of port 1.
pub type P01_2<MODE = DefaultMode> = Pin<1, 2, MODE>;

/// Pin 3 of port 1.
pub type P01_3<MODE = DefaultMode> = Pin<1, 3, MODE>;

/// Pin 4 of port 1.
pub type P01_4<MODE = DefaultMode> = Pin<1, 4, MODE>;

/// Pin 5 of port 1.
pub type P01_5<MODE = DefaultMode> = Pin<1, 5, MODE>;

/// Pin 6 of port 1.
pub type P01_6<MODE = DefaultMode> = Pin<1, 6, MODE>;

/// Pin 7 of port 1.
pub type P01_7<MODE = DefaultMode> = Pin<1, 7, MODE>;

/// Pin 8 of port 1.
pub type P01_8<MODE = DefaultMode> = Pin<1, 8, MODE>;

/// Pin 9 of port 1.
pub type P01_9<MODE = DefaultMode> = Pin<1, 9, MODE>;

/// Pin 10 of port 1.
pub type P01_10<MODE = DefaultMode> = Pin<1, 10, MODE>;

/// Pin 11 of port 1.
pub type P01_11<MODE = DefaultMode> = Pin<1, 11, MODE>;

/// Pin 12 of port 1.
pub type P01_12<MODE = DefaultMode> = Pin<1, 12, MODE>;

/// Pin 13 of port 1.
pub type P01_13<MODE = DefaultMode> = Pin<1, 13, MODE>;

/// Pin 14 of port 1.
pub type P01_14<MODE = DefaultMode> = Pin<1, 14, MODE>;

/// Pin 15 of port 1.
pub type P01_15<MODE = DefaultMode> = Pin<1, 15, MODE>;

} // verus!
