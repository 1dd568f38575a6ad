//! Keeps the set of pin modes closed.

use vstd::prelude::*;

verus! {

/// Implemented by the pin modes of this crate and by nothing else.
pub trait Sealed {

}

} // verus!
