//! Handles on the values of a statistics file.

use vstd::prelude::*;

verus! {

/// A handle on one value (`pmAtomValue`) in a statistics file: the address
/// of the value in the mapped file, zero for a handle on nothing.
#[derive(Clone, Copy)]
pub struct AtomValue {
    address: usize,
}

impl AtomValue {
    /// The address the handle refers to; zero when it refers to nothing.
    pub closed spec fn spec_address(&self) -> usize {
        self.address
    }

    /// A handle that refers to no value.
    pub fn new() -> (value: AtomValue)
        ensures
            value.spec_address() == 0,
    {
        AtomValue { address: 0 }
    }

    /// The handle on the value at `address`.
    pub fn from_address(address: usize) -> (value: AtomValue)
        ensures
            value.spec_address() == address,
    {
        AtomValue { address: address }
    }

    /// The address the handle refers to.
    pub fn address(&self) -> (address: usize)
        ensures
            address == self.spec_address(),
    {
        self.address
    }

    /// Whether the handle refers to no value.
    pub fn is_null(&self) -> (null: bool)
        ensures
            null == (self.spec_address() == 0),
    {
        self.address == 0
    }
}

} // verus!
