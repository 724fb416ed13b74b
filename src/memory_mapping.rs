//! The address of a memory-mapped register or memory block, typed by what it holds.
use vstd::prelude::*;

use core::marker::PhantomData;

verus! {

/// A typed address. Reading and writing through it is left to the machine
/// glue, which is the only place that touches raw memory.
pub struct MemoryMapping<T> {
    address: usize,
    marker: PhantomData<T>,
}

impl<T> MemoryMapping<T> {
    /// The mapping at `address`.
    pub fn new(address: usize) -> (r: Self)
        ensures
            r.spec_address() == address,
    {
        MemoryMapping { address, marker: PhantomData }
    }

    pub closed spec fn spec_address(&self) -> usize {
        self.address
    }

    /// The address this mapping reads and writes.
    pub fn address(&self) -> (r: usize)
        ensures
            r == self.spec_address(),
    {
        self.address
    }
}

} // verus!
