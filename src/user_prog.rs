//! The user programs that the kernel can run: who they are, where they start
//! and which memory region they own.
use vstd::prelude::*;

verus! {

/// The logical identity of a user program.
#[derive(Clone, Copy, Debug, PartialEq, Eq, Structural)]
pub enum Id {
    User1,
    User2,
}

/// What registering a program needs: its identity, its entry address and its
/// memory-protection region (counted from the first process region).
#[derive(Clone, Copy, Debug, PartialEq, Eq, Structural)]
pub struct Info {
    pub id: Id,
    pub boot_mepc: usize,
    pub pmp_idx: usize,
}

/// Load address of the first user program; nothing below it is user code.
pub const USER1_BOOT_MEPC: usize = 0x8010_0000;

/// Load address of the second user program.
pub const USER2_BOOT_MEPC: usize = 0x8020_0000;

impl Info {
    /// The first user program: loaded at its own address, in the first process region.
    pub fn user1() -> (r: Info)
        ensures
            r == (Info { id: Id::User1, boot_mepc: USER1_BOOT_MEPC, pmp_idx: 0 }),
    {
        Info { id: Id::User1, boot_mepc: USER1_BOOT_MEPC, pmp_idx: 0 }
    }

    /// The second user program: loaded at its own address, in the second process region.
    pub fn user2() -> (r: Info)
        ensures
            r == (Info { id: Id::User2, boot_mepc: USER2_BOOT_MEPC, pmp_idx: 1 }),
    {
        Info { id: Id::User2, boot_mepc: USER2_BOOT_MEPC, pmp_idx: 1 }
    }
}

} // verus!
