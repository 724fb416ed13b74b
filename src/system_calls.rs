//! The system-call layer: decoding the call number and carrying out the
//! calls that change scheduling; the calls that move characters are handed
//! to the machine glue as actions.
use vstd::prelude::*;

use crate::scheduler::{
    Fatal, Kernel, KernelView, ProgData, State, advance_pc, first_free_from, fresh, handle_at,
    next_index, switch_state, valid_handle, wf, lemma_first_free_from,
};

verus! {

/// The system calls, by number in declaration order.
#[derive(Clone, Copy, Debug, PartialEq, Eq, Structural)]
pub enum SysCall {
    GetChar,
    Print,
    Yield,
    Exit,
}

/// The number a program passes for a call.
pub open spec fn syscall_number(c: SysCall) -> usize {
    match c {
        SysCall::GetChar => 0,
        SysCall::Print => 1,
        SysCall::Yield => 2,
        SysCall::Exit => 3,
    }
}

/// The call a number stands for, if any.
pub open spec fn decode_syscall(number: usize) -> Option<SysCall> {
    if number == 0 {
        Some(SysCall::GetChar)
    } else if number == 1 {
        Some(SysCall::Print)
    } else if number == 2 {
        Some(SysCall::Yield)
    } else if number == 3 {
        Some(SysCall::Exit)
    } else {
        None
    }
}

impl SysCall {
    /// The number a program passes for this call.
    pub fn number(self) -> (r: usize)
        ensures
            r == syscall_number(self),
            decode_syscall(r) == Some(self),
    {
        match self {
            SysCall::GetChar => 0,
            SysCall::Print => 1,
            SysCall::Yield => 2,
            SysCall::Exit => 3,
        }
    }
}

/// What the machine glue must still do to finish a call.
#[derive(Clone, Copy, Debug, PartialEq, Eq, Structural)]
pub enum SysCallAction {
    /// Read one character and return it in the caller's `a0`.
    GetChar,
    /// Write `len` bytes starting at `ptr` of the caller's memory.
    Print { ptr: usize, len: usize },
    /// Nothing: the call is complete.
    Done,
}

/// Outcome and state of handing the processor to the next process.
pub open spec fn yield_result(k: KernelView, now: u64) -> (Result<(), Fatal>, KernelView) {
    match next_index(k) {
        None => (Err(Fatal::NoNextProg), k),
        Some(i) => (Ok(()), switch_state(k, i, now)),
    }
}

/// Outcome and state of the `Yield` call: the caller's program counter moves
/// past the call, then the next process runs.
pub open spec fn yield_call_result(k: KernelView, now: u64) -> (Result<(), Fatal>, KernelView) {
    match k.slots[k.cur as int] {
        None => (Err(Fatal::NotRunning), k),
        Some(d) => yield_result(
            KernelView {
                slots: k.slots.update(
                    k.cur as int,
                    Some(ProgData { mepc: advance_pc(d.mepc), ..d }),
                ),
                ..k
            },
            now,
        ),
    }
}

/// The state after the executing process's slot is cleared.
pub open spec fn ended_state(k: KernelView) -> KernelView {
    KernelView { slots: k.slots.update(k.cur as int, None), ..k }
}

/// Outcome and state of the `Exit` call: the caller's slot is cleared, its
/// registration is made again in the first free slot as a new process, and
/// the next process runs.
pub open spec fn exit_result(k: KernelView, now: u64) -> (Result<(), Fatal>, KernelView) {
    match k.slots[k.cur as int] {
        None => (Err(Fatal::NotRunning), k),
        Some(d) => {
            let ended = ended_state(k);
            if ended.next_serial == u64::MAX {
                (Err(Fatal::SerialsExhausted), ended)
            } else {
                let f = first_free_from(ended.slots, 0).unwrap();
                yield_result(
                    KernelView {
                        slots: ended.slots.update(f as int, Some(fresh(d.info, ended.next_serial))),
                        next_serial: ended.next_serial + 1,
                        ..ended
                    },
                    now,
                )
            }
        },
    }
}

/// A completed scheduling call as a call outcome.
pub open spec fn as_action(r: Result<(), Fatal>) -> Result<SysCallAction, Fatal> {
    match r {
        Ok(()) => Ok(SysCallAction::Done),
        Err(e) => Err(e),
    }
}

/// Outcome `r` and state `post` of system call `number` with its arguments,
/// from state `k` at time `now`.
pub open spec fn syscall_post(
    k: KernelView,
    number: usize,
    param_0: usize,
    param_1: usize,
    now: u64,
    r: Result<SysCallAction, Fatal>,
    post: KernelView,
) -> bool {
    match decode_syscall(number) {
        None => r == Err::<SysCallAction, Fatal>(Fatal::IllegalSyscall { number }) && post == k,
        Some(SysCall::GetChar) => r == Ok::<SysCallAction, Fatal>(SysCallAction::GetChar) && post == k,
        Some(SysCall::Print) => r == Ok::<SysCallAction, Fatal>(
            SysCallAction::Print { ptr: param_0, len: param_1 },
        ) && post == k,
        Some(SysCall::Yield) => r == as_action(yield_call_result(k, now).0) && post == yield_call_result(
            k,
            now,
        ).1,
        Some(SysCall::Exit) => r == as_action(exit_result(k, now).0) && post == exit_result(k, now).1,
    }
}

/// The call a number stands for; an unknown number is fatal.
fn syscall_from(number: usize) -> (r: Result<SysCall, Fatal>)
    ensures
        match decode_syscall(number) {
            Some(c) => r == Ok::<SysCall, Fatal>(c),
            None => r == Err::<SysCall, Fatal>(Fatal::IllegalSyscall { number }),
        },
{
    if number == SysCall::GetChar.number() {
        return Ok(SysCall::GetChar);
    }
    if number == SysCall::Print.number() {
        return Ok(SysCall::Print);
    }
    if number == SysCall::Yield.number() {
        return Ok(SysCall::Yield);
    }
    if number == SysCall::Exit.number() {
        return Ok(SysCall::Exit);
    }
    Err(Fatal::IllegalSyscall { number })
}

/// Hands the processor to the next ready or starting process.
pub fn sys_yield(kernel: &mut Kernel, now: u64) -> (r: Result<(), Fatal>)
    requires
        wf(old(kernel)@),
    ensures
        wf(final(kernel)@),
        (r, final(kernel)@) == yield_result(old(kernel)@, now),
{
    proof {
        crate::scheduler::lemma_next_from(kernel@, 0);
    }
    match kernel.next() {
        Some(next) => {
            kernel.switch(next, now)?;
            Ok(())
        },
        None => Err(Fatal::NoNextProg),
    }
}

/// Ends the executing process and registers its program again as a new
/// process, then hands the processor to the next process.
fn exit(kernel: &mut Kernel, now: u64) -> (r: Result<(), Fatal>)
    requires
        wf(old(kernel)@),
    ensures
        wf(final(kernel)@),
        (r, final(kernel)@) == exit_result(old(kernel)@, now),
{
    let cur = kernel.cur()?;
    let prog_info = cur.prog_info(kernel)?;
    kernel.end_prog(cur)?;
    proof {
        lemma_first_free_from(kernel@.slots, 0);
        let f = first_free_from(kernel@.slots, 0);
        if f.is_none() {
            assert(kernel@.slots[old(kernel)@.cur as int].is_none());
        }
    }
    kernel.init_prog(prog_info)?;
    sys_yield(kernel, now)
}

/// Carries out system call `number` with its two arguments. Character input
/// and output come back as actions for the machine glue; `Yield` and `Exit`
/// are done here.
pub fn syscall(kernel: &mut Kernel, number: usize, param_0: usize, param_1: usize, now: u64) -> (r:
    Result<SysCallAction, Fatal>)
    requires
        wf(old(kernel)@),
    ensures
        wf(final(kernel)@),
        syscall_post(old(kernel)@, number, param_0, param_1, now, r, final(kernel)@),
{
    match syscall_from(number)? {
        SysCall::GetChar => Ok(SysCallAction::GetChar),
        SysCall::Print => Ok(SysCallAction::Print { ptr: param_0, len: param_1 }),
        SysCall::Exit => {
            exit(kernel, now)?;
            Ok(SysCallAction::Done)
        },
        SysCall::Yield => {
            let cur = kernel.cur()?;
            cur.increment_mepc(kernel)?;
            sys_yield(kernel, now)?;
            Ok(SysCallAction::Done)
        },
    }
}

/// After an `Exit`, the caller's handle is refused, and some slot holds a
/// new registration of the same program, starting or (if it was run at once)
/// ready.
pub proof fn lemma_exit_restarts(k: KernelView, now: u64)
    requires
        wf(k),
        k.slots[k.cur as int].is_some(),
        k.next_serial < u64::MAX,
        exit_result(k, now).0.is_ok(),
    ensures
        !valid_handle(exit_result(k, now).1, handle_at(k, k.cur)),
        exists|i: int|
            0 <= i < k.slots.len() && (#[trigger] exit_result(k, now).1.slots[i]).is_some() && {
                let d = exit_result(k, now).1.slots[i].unwrap();
                &&& d.info == k.slots[k.cur as int].unwrap().info
                &&& d.serial == k.next_serial
                &&& (d.state == State::Starting || d.state == State::Rdy)
            },
{
    let d = k.slots[k.cur as int].unwrap();
    let ended = ended_state(k);
    lemma_first_free_from(ended.slots, 0);
    assert(ended.slots[k.cur as int].is_none());
    let f = first_free_from(ended.slots, 0).unwrap();
    let reg = KernelView {
        slots: ended.slots.update(f as int, Some(fresh(d.info, ended.next_serial))),
        next_serial: ended.next_serial + 1,
        ..ended
    };
    let post = exit_result(k, now).1;
    crate::scheduler::lemma_next_from(reg, 0);
    let n = next_index(reg).unwrap();
    assert(post == switch_state(reg, n, now));
    assert(reg.slots[f as int] == Some(fresh(d.info, ended.next_serial)));
    assert(post.slots[f as int].is_some());
    assert(post.slots[f as int].unwrap().info == d.info);
    if valid_handle(post, handle_at(k, k.cur)) {
        assert(post.slots[k.cur as int].unwrap().serial == reg.slots[k.cur as int].unwrap().serial);
        assert(k.cur == f);
    }
}

} // verus!
