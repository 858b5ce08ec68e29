//! Reading a register field as a typed value.
use core::marker::PhantomData;
use vstd::prelude::*;

verus! {

/// Conversion of a field, already shifted and masked, to the type `UXX`.
pub struct R<UXX> {
    pub _uxx: PhantomData<UXX>,
}

impl R<bool> {
    /// A one-bit field: set when not zero.
    pub fn r(val: u32) -> (r: bool)
        ensures
            r == (val != 0),
    {
        val != 0
    }
}

impl R<u8> {
    /// The low byte of the field.
    pub fn r(val: u32) -> (r: u8)
        ensures
            r == val % 256,
    {
        (val % 256) as u8
    }
}

impl R<u16> {
    /// The low half-word of the field.
    pub fn r(val: u32) -> (r: u16)
        ensures
            r == val % 65536,
    {
        (val % 65536) as u16
    }
}

impl R<u32> {
    /// The field itself.
    pub fn r(val: u32) -> (r: u32)
        ensures
            r == val,
    {
        val
    }
}

} // verus!
