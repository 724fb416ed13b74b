//! The UART register block: where its registers lie and what their bits say.
use vstd::prelude::*;

use crate::bitfield::{BinaryOperations, BinaryStruct, Byte, bit_spec, lemma_from_view};
use crate::memory_mapping::MemoryMapping;

verus! {

/// Base address of the UART registers.
pub const BASE_ADDR: usize = 0x1000_0000;

/// Interrupt-enable bits.
pub const RECEIVE_BIT: usize = 0;
pub const TRANSMIT_BIT: usize = 1;
pub const RECEIVER_LINE_STATUS_BIT: usize = 2;
pub const RECEIVER_TRANSMIT_STATUS_BIT: usize = 3;

/// Line-status bits: data ready, and transmit holding register empty.
pub const DATA_READY_BIT: usize = 0;
pub const TRANSMIT_EMPTY_BIT: usize = 5;

/// The eight byte registers of the UART, one after another from its base.
pub struct UartRegister {
    /// Receive buffer, transmit holding register | divisor latch low byte.
    pub rbr_thr_dll: MemoryMapping<u8>,
    /// Interrupt enable | divisor latch high byte.
    pub ier_dlm: MemoryMapping<Byte>,
    /// Interrupt status, FIFO control.
    pub isr_fcr: MemoryMapping<Byte>,
    /// Line control.
    pub lcr: MemoryMapping<Byte>,
    /// Modem control.
    pub mcr: MemoryMapping<Byte>,
    /// Line status.
    pub lsr: MemoryMapping<Byte>,
    /// Modem status.
    pub msr: MemoryMapping<Byte>,
    /// Scratch.
    pub scr: MemoryMapping<Byte>,
}

impl UartRegister {
    /// The registers of a UART at `addr`.
    pub fn new(addr: usize) -> (r: Self)
        requires
            addr + 7 <= usize::MAX,
        ensures
            r.rbr_thr_dll.spec_address() == addr,
            r.ier_dlm.spec_address() == addr + 1,
            r.isr_fcr.spec_address() == addr + 2,
            r.lcr.spec_address() == addr + 3,
            r.mcr.spec_address() == addr + 4,
            r.lsr.spec_address() == addr + 5,
            r.msr.spec_address() == addr + 6,
            r.scr.spec_address() == addr + 7,
    {
        UartRegister {
            rbr_thr_dll: MemoryMapping::new(addr),
            ier_dlm: MemoryMapping::new(addr + 1),
            isr_fcr: MemoryMapping::new(addr + 2),
            lcr: MemoryMapping::new(addr + 3),
            mcr: MemoryMapping::new(addr + 4),
            lsr: MemoryMapping::new(addr + 5),
            msr: MemoryMapping::new(addr + 6),
            scr: MemoryMapping::new(addr + 7),
        }
    }
}

/// The UART of the machine.
pub struct UART {
    pub reg: UartRegister,
}

impl UART {
    /// The UART at its base address.
    pub fn new() -> (r: Self)
        ensures
            r.reg.rbr_thr_dll.spec_address() == BASE_ADDR,
            r.reg.ier_dlm.spec_address() == BASE_ADDR + 1,
            r.reg.lsr.spec_address() == BASE_ADDR + 5,
    {
        UART { reg: UartRegister::new(BASE_ADDR) }
    }

    /// Whether a line status says the transmit holding register is free.
    pub fn can_transmit(lsr: Byte) -> (r: bool)
        ensures
            r == bit_spec(lsr, TRANSMIT_EMPTY_BIT as nat),
    {
        lsr.is_set(TRANSMIT_EMPTY_BIT)
    }

    /// Whether a line status says a received character is waiting.
    pub fn has_data(lsr: Byte) -> (r: bool)
        ensures
            r == bit_spec(lsr, DATA_READY_BIT as nat),
    {
        lsr.is_set(DATA_READY_BIT)
    }
}

/// The interrupt-enable value written at boot: receive interrupts only.
pub fn init() -> (r: Byte)
    ensures
        forall|i: nat| i < 8 ==> #[trigger] bit_spec(r, i) == (i == RECEIVE_BIT),
{
    let mut ier = BinaryStruct::from(0u8);
    proof {
        lemma_from_view(0u8);
        assert forall|i: nat| i < 8 implies !#[trigger] 0u8.bit(i) by {
            let j = i as u8;
            assert((0u8 >> j) & 1 == 0) by (bit_vector);
        }
    }
    ier.at(RECEIVE_BIT, true);
    ier.at(TRANSMIT_BIT, false);
    ier.at(RECEIVER_LINE_STATUS_BIT, false);
    ier.at(RECEIVER_TRANSMIT_STATUS_BIT, false);
    ier
}

} // verus!
