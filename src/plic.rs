//! Platform-level interrupt controller glue: the register writes that set up
//! the UART source, and the mapping between claimed source ids and the
//! sources the kernel handles.
use vstd::prelude::*;

use crate::bitfield::{BinaryStruct, BinaryOperations, bit_spec, lemma_from_view};
use crate::scheduler::Fatal;

verus! {

/// Base of the 32-bit source priority registers, one per source id.
pub const PRIORITY_BASE_ADDR: usize = 0x0c00_0000;

/// Base of the enable bits of context 0: bit `id` enables source `id`.
pub const ENABLE_ADDR: usize = 0x0c00_2000;

/// Priority threshold of context 0.
pub const THRESHOLD_ADDR_C0: usize = 0x0c20_0000;

/// Claim and completion register of context 0.
pub const CLAIM_COMP_ADDR_C0: usize = 0x0c20_0004;

/// Source id of the UART.
pub const UART_IRQ_ID: u32 = 10;

/// Priority given to the UART source.
pub const UART_PRIORITY: u32 = 5;

/// An interrupt source that the kernel handles.
#[derive(Clone, Copy, Debug, PartialEq, Eq, Structural)]
pub enum IRQ {
    Uart,
}

/// The source id of an interrupt source.
pub open spec fn irq_id(irq: IRQ) -> u32 {
    match irq {
        IRQ::Uart => UART_IRQ_ID,
    }
}

impl IRQ {
    /// The source id.
    pub fn id(self) -> (r: u32)
        ensures
            r == irq_id(self),
    {
        match self {
            IRQ::Uart => UART_IRQ_ID,
        }
    }
}

/// One register write: address and 32-bit value.
pub type RegWrite = (usize, u32);

/// The source that a claimed id names; any other id is fatal, including the
/// zero that a claim returns when nothing is pending.
pub fn read_claim(claim: u32) -> (r: Result<IRQ, Fatal>)
    ensures
        claim == UART_IRQ_ID ==> r == Ok::<IRQ, Fatal>(IRQ::Uart),
        claim != UART_IRQ_ID ==> r == Err::<IRQ, Fatal>(Fatal::UnknownIrq { claim }),
{
    if claim == IRQ::Uart.id() {
        return Ok(IRQ::Uart);
    }
    Err(Fatal::UnknownIrq { claim })
}

/// The write that signals completion of a claimed source.
pub fn write_complete(irq: IRQ) -> (r: RegWrite)
    ensures
        r == (CLAIM_COMP_ADDR_C0, irq_id(irq)),
{
    (CLAIM_COMP_ADDR_C0, irq.id())
}

/// Address of the priority register of a source.
fn get_priority_addr(irq: IRQ) -> (r: usize)
    ensures
        r == PRIORITY_BASE_ADDR + 4 * irq_id(irq),
{
    PRIORITY_BASE_ADDR + 4 * irq.id() as usize
}

/// The (word index, bit position) of a source among the 32-bit enable words.
fn bin32_idx_pos(irq: IRQ) -> (r: (usize, usize))
    ensures
        r == ((irq_id(irq) / 32) as usize, (irq_id(irq) % 32) as usize),
{
    let irq = irq.id() as usize;
    (irq / 32, irq % 32)
}

/// Address of enable word `idx`.
fn get_enable_addr(idx: usize) -> (r: usize)
    requires
        idx < 32,
    ensures
        r == ENABLE_ADDR + 4 * idx,
{
    ENABLE_ADDR + 4 * idx
}

/// The register writes that set up the controller, in order: the UART's
/// priority, the enable word holding the UART's bit (and no other), and a
/// zero threshold.
pub fn init() -> (r: [RegWrite; 3])
    ensures
        r[0] == ((PRIORITY_BASE_ADDR + 4 * UART_IRQ_ID) as usize, UART_PRIORITY),
        r[1].0 == ENABLE_ADDR + 4 * (UART_IRQ_ID / 32),
        r[1].1 == 0u32.set_bit_value((UART_IRQ_ID % 32) as nat, true),
        forall|i: nat| i < 32 ==> #[trigger] r[1].1.bit(i) == (i == UART_IRQ_ID % 32),
        r[2] == (THRESHOLD_ADDR_C0, 0u32),
{
    let uart_priority_addr = get_priority_addr(IRQ::Uart);
    let (uart_idx, uart_bit) = bin32_idx_pos(IRQ::Uart);
    let mut enable = BinaryStruct::from(0u32);
    proof {
        lemma_from_view(0u32);
        assert forall|i: nat| i < 32 implies !#[trigger] 0u32.bit(i) by {
            let j = i as u32;
            assert((0u32 >> j) & 1 == 0) by (bit_vector);
        }
    }
    let ghost zero = enable;
    enable.at(uart_bit, true);
    proof {
        assert forall|i: nat| i < 32 implies #[trigger] enable@.bit(i) == (i == UART_IRQ_ID % 32) by {
            assert(bit_spec(enable, i) == if i == uart_bit as nat {
                true
            } else {
                bit_spec(zero, i)
            });
        }
    }
    let enable_addr = get_enable_addr(uart_idx);
    [
        (uart_priority_addr, UART_PRIORITY),
        (enable_addr, enable.get()),
        (THRESHOLD_ADDR_C0, 0u32),
    ]
}

} // verus!
