//! The trap dispatcher: the one entry for every machine-mode trap.
//!
//! A trap is handled in phases, each a function from the kernel state and the
//! values read from the machine to the next state: [`exception_entry`] saves
//! the trapped process and classifies the cause; [`handle_timer`],
//! [`handle_external`] or [`handle_ecall`] does the work of the cause; and
//! [`exception_exit`] says how to return to user mode. The machine glue reads
//! each value only when the phase that needs it has been reached, since some
//! reads (claiming an interrupt, taking a character) have effects.
use vstd::prelude::*;

use crate::bitfield::{BinaryOperations, BinaryStruct, lemma_from_view};
use crate::clint::next_time_cmp;
use crate::plic::{self, IRQ};
use crate::scheduler::{
    Fatal, Kernel, KernelView, ProgData, State, all_ready, next_index, rotation, schedulable,
    switch_ready, switch_state, wf, lemma_next_from, lemma_rotation_distinct,
};
use crate::stack::{A0, A1, A7, Stack};
use crate::system_calls::{SysCallAction, syscall};
use crate::user_prog::{Id, USER1_BOOT_MEPC};

verus! {

/// Interrupt cause of the machine timer.
pub const TIMER_INTERRUPT: usize = 7;

/// Interrupt cause of the external interrupt controller.
pub const EXTERNAL_INTERRUPT: usize = 11;

/// Exception cause of an instruction access fault.
pub const INSTRUCTION_ACCESS_FAULT: usize = 1;

/// Exception cause of a load access fault.
pub const LOAD_ACCESS_FAULT: usize = 5;

/// Exception cause of an environment call from user mode.
pub const ENVIRONMENT_CALL: usize = 8;

/// The causes that are handled and not fatal.
#[derive(Clone, Copy, Debug, PartialEq, Eq, Structural)]
pub enum TrapKind {
    Timer,
    External,
    EnvironmentCall,
}

/// How to return to user mode.
#[derive(Clone, Copy, Debug, PartialEq, Eq, Structural)]
pub enum Resume {
    /// Restore the trap frame at `sp` and return to `mepc`.
    Restore { sp: usize, mepc: usize },
    /// Start a process afresh at `mepc`.
    Boot { mepc: usize },
}

/// Position of the interrupt flag: the top bit of the cause register.
pub open spec fn top_bit() -> nat {
    (usize::BITS - 1) as nat
}

/// Whether a cause value denotes an interrupt.
pub open spec fn is_interrupt(mcause: usize) -> bool {
    mcause.bit(top_bit())
}

/// The cause number: the cause value without the interrupt flag.
pub open spec fn cause_code(mcause: usize) -> usize {
    mcause.set_bit_value(top_bit(), false)
}

/// What a trap cause leads to, for a trap of process `id` at `mepc` with
/// trap value `mtval`.
pub open spec fn classify(mcause: usize, id: Id, mepc: usize, mtval: usize) -> Result<TrapKind, Fatal> {
    let code = cause_code(mcause);
    if is_interrupt(mcause) {
        if code == TIMER_INTERRUPT {
            Ok(TrapKind::Timer)
        } else if code == EXTERNAL_INTERRUPT {
            Ok(TrapKind::External)
        } else {
            Err(Fatal::UnsupportedInterrupt { code })
        }
    } else if code == INSTRUCTION_ACCESS_FAULT {
        Err(Fatal::InstructionAccessFault { id, mepc, mtval })
    } else if code == LOAD_ACCESS_FAULT {
        Err(Fatal::LoadAccessFault { id, mepc, mtval })
    } else if code == ENVIRONMENT_CALL {
        Ok(TrapKind::EnvironmentCall)
    } else {
        Err(Fatal::UnsupportedException { code })
    }
}

/// The state after a trap entry saves the executing process's program
/// counter and stack pointer.
pub open spec fn entry_state(k: KernelView, mepc: usize, sp: usize) -> KernelView {
    KernelView {
        slots: k.slots.update(
            k.cur as int,
            Some(ProgData { mepc, sp, ..k.slots[k.cur as int].unwrap() }),
        ),
        booted: false,
        ..k
    }
}

/// The state after a timer trap hands the processor to slot `i` at time `now`.
pub open spec fn timer_state(k: KernelView, i: nat, now: u64) -> KernelView {
    KernelView { mtimecmp: next_time_cmp(now), ..switch_state(k, i, now) }
}

/// Splits a cause value into the interrupt flag and the cause number.
pub fn decode_mcause(mcause: usize) -> (r: (bool, usize))
    ensures
        r == (is_interrupt(mcause), cause_code(mcause)),
{
    let top = (usize::BITS - 1) as usize;
    let mut cause = BinaryStruct::from(mcause);
    proof {
        lemma_from_view(mcause);
    }
    let interrupt = cause.is_set(top);
    cause.at(top, false);
    (interrupt, cause.get())
}

/// Trap entry: saves the trapped process (refusing a trap taken inside the
/// kernel) and classifies the cause. Access faults and unsupported causes are
/// fatal; a fault names the process, its program counter and the trap value.
pub fn exception_entry(kernel: &mut Kernel, mepc: usize, mcause: usize, sp: usize, mtval: usize) -> (r:
    Result<TrapKind, Fatal>)
    requires
        wf(old(kernel)@),
    ensures
        wf(final(kernel)@),
        mepc < USER1_BOOT_MEPC ==> r == Err::<TrapKind, Fatal>(
            Fatal::InterruptInException { mepc, mcause },
        ) && final(kernel)@ == old(kernel)@,
        mepc >= USER1_BOOT_MEPC && old(kernel)@.slots[old(kernel)@.cur as int].is_none() ==> r
            == Err::<TrapKind, Fatal>(Fatal::NotRunning) && final(kernel)@ == old(kernel)@,
        mepc >= USER1_BOOT_MEPC && old(kernel)@.slots[old(kernel)@.cur as int].is_some() ==> r
            == classify(mcause, old(kernel)@.slots[old(kernel)@.cur as int].unwrap().info.id, mepc, mtval)
            && final(kernel)@ == entry_state(old(kernel)@, mepc, sp),
{
    kernel.save_cur_prog(mepc, mcause, sp)?;
    kernel.clear_booted();
    let (interrupt, code) = decode_mcause(mcause);
    if interrupt {
        if code == TIMER_INTERRUPT {
            Ok(TrapKind::Timer)
        } else if code == EXTERNAL_INTERRUPT {
            Ok(TrapKind::External)
        } else {
            Err(Fatal::UnsupportedInterrupt { code })
        }
    } else if code == ENVIRONMENT_CALL {
        Ok(TrapKind::EnvironmentCall)
    } else if code == INSTRUCTION_ACCESS_FAULT || code == LOAD_ACCESS_FAULT {
        let id = match kernel.cur() {
            Ok(cur) => match cur.id(kernel) {
                Ok(id) => id,
                Err(e) => return Err(e),
            },
            Err(e) => return Err(e),
        };
        if code == INSTRUCTION_ACCESS_FAULT {
            Err(Fatal::InstructionAccessFault { id, mepc, mtval })
        } else {
            Err(Fatal::LoadAccessFault { id, mepc, mtval })
        }
    } else {
        Err(Fatal::UnsupportedException { code })
    }
}

/// Timer interrupt: hands the processor to the next process in round-robin
/// order and arms the next tick.
pub fn handle_timer(kernel: &mut Kernel, now: u64) -> (r: Result<(), Fatal>)
    requires
        wf(old(kernel)@),
    ensures
        wf(final(kernel)@),
        match next_index(old(kernel)@) {
            None => r == Err::<(), Fatal>(Fatal::NoNextProg) && final(kernel)@ == old(kernel)@,
            Some(i) => r == Ok::<(), Fatal>(()) && final(kernel)@ == timer_state(old(kernel)@, i, now),
        },
{
    proof {
        lemma_next_from(kernel@, 0);
    }
    let next = match kernel.next() {
        Some(next) => next,
        None => return Err(Fatal::NoNextProg),
    };
    kernel.switch(next, now)?;
    kernel.arm_timer(now);
    Ok(())
}

/// External interrupt: the source that the claimed id names. The machine
/// glue then performs the source's action (for the UART: read a character and
/// echo it) and writes [`plic::write_complete`].
pub fn handle_external(claim: u32) -> (r: Result<IRQ, Fatal>)
    ensures
        r == (if claim == plic::UART_IRQ_ID {
            Ok::<IRQ, Fatal>(IRQ::Uart)
        } else {
            Err::<IRQ, Fatal>(Fatal::UnknownIrq { claim })
        }),
{
    plic::read_claim(claim)
}

/// Environment call: the system call in the trap frame: number in `a7`,
/// arguments in `a0` and `a1`.
pub fn handle_ecall(kernel: &mut Kernel, stack: &Stack, now: u64) -> (r: Result<SysCallAction, Fatal>)
    requires
        wf(old(kernel)@),
    ensures
        wf(final(kernel)@),
        crate::system_calls::syscall_post(
            old(kernel)@,
            stack@[A7 as int],
            stack@[A0 as int],
            stack@[A1 as int],
            now,
            r,
            final(kernel)@,
        ),
{
    syscall(kernel, stack.a7(), stack.a0(), stack.a1(), now)
}

/// Trap exit: a process started afresh is entered at its entry address;
/// otherwise the executing process, which must be ready, resumes from its
/// saved frame and program counter.
pub fn exception_exit(kernel: &mut Kernel) -> (r: Result<Resume, Fatal>)
    requires
        wf(old(kernel)@),
    ensures
        wf(final(kernel)@),
        old(kernel)@.booted ==> r == Ok::<Resume, Fatal>(Resume::Boot { mepc: old(kernel)@.mepc })
            && final(kernel)@ == old(kernel)@,
        !old(kernel)@.booted ==> match old(kernel)@.slots[old(kernel)@.cur as int] {
            None => r == Err::<Resume, Fatal>(Fatal::NotRunning) && final(kernel)@ == old(kernel)@,
            Some(d) => if d.state == State::Rdy {
                r == Ok::<Resume, Fatal>(Resume::Restore { sp: d.sp, mepc: d.mepc })
                    && final(kernel)@ == (KernelView { mepc: d.mepc, ..old(kernel)@ })
            } else {
                r == Err::<Resume, Fatal>(Fatal::RestoreNotReady { id: d.info.id })
                    && final(kernel)@ == old(kernel)@
            },
        },
{
    if kernel.booted() {
        return Ok(Resume::Boot { mepc: kernel.mepc() });
    }
    let sp = kernel.restore_cur_prog()?;
    Ok(Resume::Restore { sp, mepc: kernel.mepc() })
}

/// Consecutive states, each reached from the one before by a timer trap:
/// the entry saves the trapped program counter and stack pointer, then the
/// timer handler hands the processor to the next slot.
pub open spec fn timer_rotations(
    states: Seq<KernelView>,
    pcs: Seq<usize>,
    sps: Seq<usize>,
    now: Seq<u64>,
) -> bool {
    &&& states.len() == now.len() + 1
    &&& pcs.len() == now.len()
    &&& sps.len() == now.len()
    &&& forall|n: int|
        0 <= n < now.len() ==> {
            let e = #[trigger] entry_state(states[n], pcs[n], sps[n]);
            next_index(e).is_some() && states[n + 1] == timer_state(e, next_index(e).unwrap(), now[n])
        }
}

/// Some rotation after the first state lands on slot `i`.
pub open spec fn visited(states: Seq<KernelView>, i: nat) -> bool {
    exists|n: nat| 1 <= n < states.len() && #[trigger] states[n as int].cur == i
}

proof fn lemma_timer_rotations_prefix(
    states: Seq<KernelView>,
    pcs: Seq<usize>,
    sps: Seq<usize>,
    now: Seq<u64>,
    n: nat,
)
    requires
        wf(states[0]),
        all_ready(states[0]),
        timer_rotations(states, pcs, sps, now),
        n < states.len(),
    ensures
        wf(states[n as int]),
        all_ready(states[n as int]),
        states[n as int].slots.len() == states[0].slots.len(),
        states[n as int].cur == rotation(states[0], n),
    decreases n,
{
    let k0 = states[0];
    let len = k0.slots.len();
    if n == 0 {
        vstd::arithmetic::div_mod::lemma_small_mod(k0.cur, len);
    } else {
        let m = (n - 1) as nat;
        lemma_timer_rotations_prefix(states, pcs, sps, now, m);
        let k = states[m as int];
        let e = entry_state(k, pcs[m as int], sps[m as int]);
        assert(k.slots[k.cur as int].is_some());
        assert(all_ready(e)) by {
            assert forall|i: nat| i < e.slots.len() implies (#[trigger] e.slots[i as int]).is_some()
                && e.slots[i as int].unwrap().state == State::Rdy by {
                assert(k.slots[i as int].is_some());
            }
        }
        assert(wf(e)) by {
            assert forall|i: int| 0 <= i < e.slots.len() && (#[trigger] e.slots[i]).is_some() implies {
                &&& e.slots[i].unwrap().info.pmp_idx < crate::pmp::USER_REGIONS
                &&& e.slots[i].unwrap().serial < e.next_serial
            } by {
                assert(k.slots[i].is_some());
            }
            assert forall|i: int, j: int|
                0 <= i < e.slots.len() && 0 <= j < e.slots.len() && i != j && (
                #[trigger] e.slots[i]).is_some() && (#[trigger] e.slots[j]).is_some() implies e.slots[i].unwrap().serial
                    != e.slots[j].unwrap().serial by {
                assert(k.slots[i].is_some() && k.slots[j].is_some());
            }
        }
        assert(crate::scheduler::all_schedulable(e)) by {
            assert forall|i: nat| i < e.slots.len() implies #[trigger] schedulable(e, i) by {
                assert(e.slots[i as int].is_some());
            }
        }
        crate::scheduler::lemma_next_when_all_schedulable(e);
        let i = rotation(e, 1);
        assert(e.slots[i as int].is_some());
        assert(states[n as int] == (KernelView { mtimecmp: next_time_cmp(now[m as int]), ..switch_ready(e, i) }));
        let x = (k0.cur + m) as int;
        assert((x % (len as int) + 1) % (len as int) == (x + 1) % (len as int)) by {
            vstd::arithmetic::div_mod::lemma_add_mod_noop(x, 1, len as int);
            vstd::arithmetic::div_mod::lemma_add_mod_noop(x % (len as int), 1, len as int);
            vstd::arithmetic::div_mod::lemma_mod_twice(x, len as int);
        }
    }
}

/// Round robin: when every one of the N slots is ready, N consecutive timer
/// traps visit each slot exactly once, the n-th landing on the slot n places
/// after the one executing at the start, wrapping at the end of the table.
pub proof fn lemma_round_robin(
    states: Seq<KernelView>,
    pcs: Seq<usize>,
    sps: Seq<usize>,
    now: Seq<u64>,
)
    requires
        wf(states[0]),
        all_ready(states[0]),
        timer_rotations(states, pcs, sps, now),
        now.len() == states[0].slots.len(),
    ensures
        forall|n: nat| 1 <= n < states.len() ==> (#[trigger] states[n as int]).cur == rotation(states[0], n),
        forall|n: nat, m: nat|
            1 <= n < states.len() && 1 <= m < states.len() && n != m ==> #[trigger] states[n as int].cur != #[trigger] states[m as int].cur,
        forall|i: nat| i < states[0].slots.len() ==> #[trigger] visited(states, i),
{
    let k0 = states[0];
    let len = k0.slots.len();
    assert forall|n: nat| 1 <= n < states.len() implies (#[trigger] states[n as int]).cur == rotation(states[0], n) by {
        lemma_timer_rotations_prefix(states, pcs, sps, now, n);
    }
    assert forall|a: nat, b: nat|
        1 <= a < states.len() && 1 <= b < states.len() && a != b implies #[trigger] states[a as int].cur != #[trigger] states[b as int].cur by {
        lemma_timer_rotations_prefix(states, pcs, sps, now, a);
        lemma_timer_rotations_prefix(states, pcs, sps, now, b);
        lemma_rotation_distinct(k0.cur, a, b, len);
    }
    assert forall|i: nat| i < len implies #[trigger] visited(states, i) by {
        let n: nat = if i > k0.cur { (i - k0.cur) as nat } else { (i + len - k0.cur) as nat };
        assert(1 <= n <= len);
        assert((k0.cur + n) % len == i) by {
            if i > k0.cur {
                vstd::arithmetic::div_mod::lemma_small_mod(i, len as nat);
            } else {
                vstd::arithmetic::div_mod::lemma_mod_add_multiples_vanish(i as int, len as int);
                vstd::arithmetic::div_mod::lemma_small_mod(i, len as nat);
            }
        }
        lemma_timer_rotations_prefix(states, pcs, sps, now, n);
        assert(states[n as int].cur == i);
    }
}

} // verus!
