//! Marker traits that say what a pin mode can do.

use vstd::prelude::*;

verus! {

/// Marker trait that shows if a pin can be an interrupt source.
pub trait Interruptible {

}

/// Marker trait for readable pin modes.
pub trait Readable {

}

/// Marker trait for slew rate configurable pin modes.
pub trait OutputSpeed {

}

/// Marker trait for active pin modes.
pub trait Active {

}

/// Marker trait for all pin modes except alternate.
pub trait NotAlt {

}

/// Marker trait for pins with alternate function `A` mapping.
pub trait IntoAf<const A: u8> {

}

} // verus!
