//! Pins in the service of a peripheral.

use vstd::prelude::*;

verus! {

/// The pins of a CAN node.
pub trait CanCommon {
    type Rx;

    type Tx;
}

} // verus!
