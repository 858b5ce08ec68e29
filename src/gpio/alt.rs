//! Alternate-function pin markers.
use vstd::prelude::*;

verus! {

/// Pins that carry alternate function `A`.
pub trait PinA<const A: u8> {
}

} // verus!
