//! The control-register values written once at boot.
use vstd::prelude::*;

use crate::bitfield::{BinaryOperations, BinaryStruct, RegisterEntry, lemma_from_view};

verus! {

/// `mstatus.MPP` cleared (bits 11 and 12): `mret` returns to user mode.
pub const MSTATUS_MPP_U: (RegisterEntry, RegisterEntry) = ((11, false), (12, false));

/// `mstatus.MIE`: machine-mode interrupts enabled.
pub const MSTATUS_MIE: RegisterEntry = (3, true);

/// `mie.MEIE`: machine external interrupts enabled.
pub const MIE_MEIE: RegisterEntry = (11, true);

/// `mie.MTIE`: machine timer interrupts enabled.
pub const MIE_MTIE: RegisterEntry = (7, true);

/// `mie.MSIE`: machine software interrupts enabled.
pub const MIE_MSIE: RegisterEntry = (3, true);

/// `sie.SEIE`: supervisor external interrupts enabled.
pub const SIE_SEIE: RegisterEntry = (9, true);

/// `sie.STIE`: supervisor timer interrupts enabled.
pub const SIE_STIE: RegisterEntry = (5, true);

/// `sie.SSIE`: supervisor software interrupts enabled.
pub const SIE_SSIE: RegisterEntry = (1, true);

/// `mstatus` as boot leaves it: previous privilege user, interrupts enabled,
/// every other bit as it was.
pub open spec fn boot_mstatus(mstatus: usize) -> usize {
    mstatus.set_bit_value(11, false).set_bit_value(12, false).set_bit_value(3, true)
}

/// `mie` as boot leaves it: software, timer and external interrupts enabled,
/// every other bit as it was.
pub open spec fn boot_mie(mie: usize) -> usize {
    mie.set_bit_value(3, true).set_bit_value(7, true).set_bit_value(11, true)
}

/// The `mstatus` value to write at boot, from the value read.
pub fn setup_mstatus(mstatus: usize) -> (r: usize)
    ensures
        r == boot_mstatus(mstatus),
{
    let mut reg = BinaryStruct::from(mstatus);
    proof {
        lemma_from_view(mstatus);
        usize::lemma_width_fits();
    }
    reg.write_register_entry(MSTATUS_MPP_U.0);
    reg.write_register_entry(MSTATUS_MPP_U.1);
    reg.write_register_entry(MSTATUS_MIE);
    reg.get()
}

/// The `mie` value to write at boot, from the value read.
pub fn setup_mie(mie: usize) -> (r: usize)
    ensures
        r == boot_mie(mie),
{
    let mut reg = BinaryStruct::from(mie);
    proof {
        lemma_from_view(mie);
        usize::lemma_width_fits();
    }
    reg.write_register_entry(MIE_MSIE);
    reg.write_register_entry(MIE_MTIE);
    reg.write_register_entry(MIE_MEIE);
    reg.get()
}

} // verus!
