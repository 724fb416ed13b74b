//! The trap frame: the general-purpose registers of the trapped program, as
//! the trap entry saved them on its stack.
use vstd::prelude::*;

use crate::memory_mapping::MemoryMapping;

verus! {

/// Position of register `a0` (first argument, return value) in the frame.
pub const A0: usize = 9;

/// Position of register `a1` (second argument) in the frame.
pub const A1: usize = 10;

/// Position of register `a7` (system call number) in the frame.
pub const A7: usize = 16;

/// A trap frame and where it lives.
pub struct Stack(MemoryMapping<[usize; 32]>, [usize; 32]);

impl Stack {
    /// The frame at stack pointer `sp`, holding the registers `regs` read from there.
    pub fn new(sp: usize, regs: [usize; 32]) -> (r: Self)
        ensures
            r.address_spec() == sp,
            r@ == regs@,
    {
        Stack(MemoryMapping::new(sp), regs)
    }

    pub closed spec fn address_spec(&self) -> usize {
        self.0.spec_address()
    }

    /// Where the frame is written back.
    pub fn address(&self) -> (r: usize)
        ensures
            r == self.address_spec(),
    {
        self.0.address()
    }

    /// The registers, to write back.
    pub fn regs(&self) -> (r: [usize; 32])
        ensures
            r@ == self@,
    {
        self.1
    }

    /// First argument.
    pub fn a0(&self) -> (r: usize)
        ensures
            r == self@[A0 as int],
    {
        self.1[A0]
    }

    /// Second argument.
    pub fn a1(&self) -> (r: usize)
        ensures
            r == self@[A1 as int],
    {
        self.1[A1]
    }

    /// System call number.
    pub fn a7(&self) -> (r: usize)
        ensures
            r == self@[A7 as int],
    {
        self.1[A7]
    }

    /// Sets the return value.
    pub fn set_ret(&mut self, ret: usize)
        ensures
            final(self)@ == old(self)@.update(A0 as int, ret),
            final(self).address_spec() == old(self).address_spec(),
    {
        self.1[A0] = ret;
    }
}

impl View for Stack {
    type V = Seq<usize>;

    closed spec fn view(&self) -> Seq<usize> {
        self.1@
    }
}

} // verus!
