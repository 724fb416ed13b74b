//! Address-translation register values.
use vstd::prelude::*;

verus! {

/// Timer frequency of the machine, in cycles per second.
pub const FREQ: u64 = 10_000_000;

/// A context-switch period of 500 per second, in timer cycles.
pub const CONTEXT_SWITCH_TIME: u64 = 20_000;

/// Address-translation modes of `satp`.
#[derive(Clone, Copy, Debug, PartialEq, Eq, Structural)]
pub enum SatpMode {
    Off,
    Sv39,
    Sv48,
}

/// The mode field value of a translation mode.
pub open spec fn mode_value(mode: SatpMode) -> u64 {
    match mode {
        SatpMode::Off => 0,
        SatpMode::Sv39 => 8,
        SatpMode::Sv48 => 9,
    }
}

impl SatpMode {
    /// The mode field value.
    pub fn value(self) -> (r: u64)
        ensures
            r == mode_value(self),
    {
        match self {
            SatpMode::Off => 0,
            SatpMode::Sv39 => 8,
            SatpMode::Sv48 => 9,
        }
    }
}

/// The `satp` value: mode in bits 60 and up, the low 16 bits of the address
/// space id in bits 44 to 59, and the page number of the root table (the low
/// 40 bits of `addr >> 12`) in bits 0 to 43.
pub fn build_satp(mode: SatpMode, asid: u64, addr: u64) -> (r: u64)
    ensures
        r == (mode_value(mode) << 60u64) | ((asid & 0xffff) << 44u64) | ((addr >> 12u64) & 0xff_ffff_ffff),
{
    (mode.value() << 60u64) | ((asid & 0xffff) << 44u64) | ((addr >> 12u64) & 0xff_ffff_ffff)
}

} // verus!
