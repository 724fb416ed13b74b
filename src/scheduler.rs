//! The process table and its round-robin scheduler.
//!
//! The kernel state is one owned value: the fixed table of process slots, the
//! index of the executing slot, and the shadows of the machine registers that
//! scheduling decides (`pmpcfg0`, `mepc`, `mtimecmp`). Every violated
//! precondition is reported as a [`Fatal`] error and leaves the state unchanged.
use vstd::prelude::*;

use crate::clint::{self, next_time_cmp};
use crate::pmp::{self, exclusive, pmp_word, USER_REGIONS};
use crate::user_prog::{Id, Info, USER1_BOOT_MEPC};

verus! {

/// Largest number of process slots: one process region each in `pmpcfg0`.
pub const MAX_PROGS: usize = 6;

/// Why a process cannot run. No reason exists yet: blocking is reserved for
/// future causes, nothing outside this crate can make a value of it, and the
/// scheduler only ever asks whether a process is blocked.
#[derive(Clone, Copy, Debug, PartialEq, Eq)]
pub struct Reason(());

/// Lifecycle of a process slot.
#[derive(Clone, Copy, Debug, PartialEq, Eq)]
pub enum State {
    /// Eligible for scheduling.
    Rdy,
    /// Not schedulable until the reason is gone.
    Blocked(Reason),
    /// Registered and never run.
    Starting,
}

/// One occupied process slot.
#[derive(Clone, Copy, Debug)]
pub struct ProgData {
    /// The registration it was created from.
    pub info: Info,
    /// Saved program counter.
    pub mepc: usize,
    /// Saved stack pointer (address of the trap frame).
    pub sp: usize,
    pub state: State,
    /// Registration number, unique among all registrations of this kernel.
    pub serial: u64,
}

/// Every fatal condition of the core; each halts the system.
#[derive(Clone, Copy, Debug, PartialEq, Eq)]
pub enum Fatal {
    /// A handle names a slot that holds no process.
    MissingProg { idx: usize, id: Id },
    /// A handle names a slot whose occupant has changed since it was issued.
    StaleHandle { idx: usize, id: Id, found: Id },
    /// Every slot of the process table is occupied.
    NoFreeSlot,
    /// Registration numbers are used up.
    SerialsExhausted,
    /// No process is executing.
    NotRunning,
    /// Switching to a blocked process.
    SwitchToBlocked { id: Id },
    /// Resuming a process that is not ready.
    RestoreNotReady { id: Id },
    /// No process can run next.
    NoNextProg,
    /// A trap whose program counter lies below user code: a trap taken inside the kernel.
    InterruptInException { mepc: usize, mcause: usize },
    /// An interrupt cause that is not handled.
    UnsupportedInterrupt { code: usize },
    /// An exception cause that is not handled.
    UnsupportedException { code: usize },
    /// A user program fetched an instruction outside its region.
    InstructionAccessFault { id: Id, mepc: usize, mtval: usize },
    /// A user program loaded from outside its region.
    LoadAccessFault { id: Id, mepc: usize, mtval: usize },
    /// An environment call with an unknown number.
    IllegalSyscall { number: usize },
    /// The interrupt controller handed out an unknown source.
    UnknownIrq { claim: u32 },
}

/// A handle on a process: the slot index and the registration it expects there.
#[derive(Clone, Copy, Debug, PartialEq, Eq, Structural)]
pub struct Prog {
    idx: usize,
    id: Id,
    serial: u64,
}

/// What a handle denotes.
pub struct ProgView {
    pub idx: nat,
    pub id: Id,
    pub serial: nat,
}

impl View for Prog {
    type V = ProgView;

    closed spec fn view(&self) -> ProgView {
        ProgView { idx: self.idx as nat, id: self.id, serial: self.serial as nat }
    }
}

/// The whole kernel state.
pub struct Kernel {
    progs: Vec<Option<ProgData>>,
    cur: usize,
    next_serial: u64,
    pmpcfg0: u64,
    mepc: usize,
    mtimecmp: u64,
    booted: bool,
}

/// The kernel state as values.
pub struct KernelView {
    /// The process table.
    pub slots: Seq<Option<ProgData>>,
    /// Index of the executing slot.
    pub cur: nat,
    /// Registration number that the next registration receives.
    pub next_serial: nat,
    /// Shadow of the memory-protection configuration register.
    pub pmpcfg0: u64,
    /// Shadow of the trap return address register.
    pub mepc: usize,
    /// Shadow of the timer compare register.
    pub mtimecmp: u64,
    /// Whether the last transfer of control was a fresh start of a process
    /// at `mepc`, rather than the resumption of a saved trap frame.
    pub booted: bool,
}

impl View for Kernel {
    type V = KernelView;

    closed spec fn view(&self) -> KernelView {
        KernelView {
            slots: self.progs@,
            cur: self.cur as nat,
            next_serial: self.next_serial as nat,
            pmpcfg0: self.pmpcfg0,
            mepc: self.mepc,
            mtimecmp: self.mtimecmp,
            booted: self.booted,
        }
    }
}

/// A freshly registered slot.
pub open spec fn fresh(info: Info, serial: nat) -> ProgData {
    ProgData { info, mepc: 0, sp: 0, state: State::Starting, serial: serial as u64 }
}

/// The kernel state invariant: a table of one to [`MAX_PROGS`] slots, a
/// current index inside it, every occupant in a valid process region, and
/// registration numbers below the next one and distinct between slots.
pub open spec fn wf(k: KernelView) -> bool {
    &&& 1 <= k.slots.len() <= MAX_PROGS
    &&& k.cur < k.slots.len()
    &&& k.next_serial <= u64::MAX
    &&& forall|i: int|
        0 <= i < k.slots.len() && (#[trigger] k.slots[i]).is_some() ==> {
            &&& k.slots[i].unwrap().info.pmp_idx < USER_REGIONS
            &&& k.slots[i].unwrap().serial < k.next_serial
        }
    &&& forall|i: int, j: int|
        0 <= i < k.slots.len() && 0 <= j < k.slots.len() && i != j && (
        #[trigger] k.slots[i]).is_some() && (#[trigger] k.slots[j]).is_some() ==> k.slots[i].unwrap().serial
            != k.slots[j].unwrap().serial
}

/// The handle on the occupant of slot `i`.
pub open spec fn handle_at(k: KernelView, i: nat) -> ProgView {
    ProgView { idx: i, id: k.slots[i as int].unwrap().info.id, serial: k.slots[i as int].unwrap().serial as nat }
}

/// A handle is valid while its slot holds the registration it was issued for.
pub open spec fn valid_handle(k: KernelView, h: ProgView) -> bool {
    &&& h.idx < k.slots.len()
    &&& k.slots[h.idx as int].is_some()
    &&& k.slots[h.idx as int].unwrap().info.id == h.id
    &&& k.slots[h.idx as int].unwrap().serial as nat == h.serial
}

/// The error for using an invalid handle.
pub open spec fn handle_error(k: KernelView, h: Prog) -> Fatal {
    if h@.idx < k.slots.len() && k.slots[h@.idx as int].is_some() {
        Fatal::StaleHandle {
            idx: h@.idx as usize,
            id: h@.id,
            found: k.slots[h@.idx as int].unwrap().info.id,
        }
    } else {
        Fatal::MissingProg { idx: h@.idx as usize, id: h@.id }
    }
}

/// Whether slot `i` holds a process that may be scheduled.
pub open spec fn schedulable(k: KernelView, i: nat) -> bool {
    &&& k.slots[i as int].is_some()
    &&& (k.slots[i as int].unwrap().state == State::Rdy || k.slots[i as int].unwrap().state
        == State::Starting)
}

/// The slot visited `step` places after the current one, wrapping at the end of the table.
pub open spec fn rr_index(k: KernelView, step: nat) -> nat {
    (k.cur + 1 + step) % k.slots.len()
}

/// The first schedulable slot in round-robin order from `step` places after the current one.
pub open spec fn next_from(k: KernelView, step: nat) -> Option<nat>
    decreases k.slots.len() - step,
{
    if step >= k.slots.len() {
        None
    } else if schedulable(k, rr_index(k, step)) {
        Some(rr_index(k, step))
    } else {
        next_from(k, step + 1)
    }
}

/// The slot that the scheduler runs next.
pub open spec fn next_index(k: KernelView) -> Option<nat> {
    next_from(k, 0)
}

/// The state after making slot `i`, which is ready, the executing one.
pub open spec fn switch_ready(k: KernelView, i: nat) -> KernelView {
    KernelView {
        cur: i,
        pmpcfg0: pmp_word(k.slots[i as int].unwrap().info.pmp_idx as nat),
        ..k
    }
}

/// The state after starting slot `i` at time `now`: the slot is ready and
/// executing, control goes to its entry address, and the timer is armed.
pub open spec fn boot_state(k: KernelView, i: nat, now: u64) -> KernelView {
    let d = k.slots[i as int].unwrap();
    let started = KernelView {
        slots: k.slots.update(i as int, Some(ProgData { state: State::Rdy, ..d })),
        ..k
    };
    KernelView {
        mepc: d.info.boot_mepc,
        mtimecmp: next_time_cmp(now),
        booted: true,
        ..switch_ready(started, i)
    }
}

/// The state after switching to slot `i` at time `now`, which holds a ready
/// or starting process.
pub open spec fn switch_state(k: KernelView, i: nat, now: u64) -> KernelView {
    if k.slots[i as int].unwrap().state == State::Rdy {
        switch_ready(k, i)
    } else {
        boot_state(k, i, now)
    }
}

/// Index of the first free slot at or after `i`, if any.
pub open spec fn first_free_from(slots: Seq<Option<ProgData>>, i: nat) -> Option<nat>
    decreases slots.len() - i,
{
    if i >= slots.len() {
        None
    } else if slots[i as int].is_none() {
        Some(i)
    } else {
        first_free_from(slots, i + 1)
    }
}

/// Where the first free slot lies, and that none lies before it.
pub proof fn lemma_first_free_from(slots: Seq<Option<ProgData>>, i: nat)
    ensures
        match first_free_from(slots, i) {
            Some(f) => i <= f < slots.len() && slots[f as int].is_none() && forall|j: int|
                i <= j < f ==> (#[trigger] slots[j]).is_some(),
            None => forall|j: int| i <= j < slots.len() ==> (#[trigger] slots[j]).is_some(),
        },
    decreases slots.len() - i,
{
    if i < slots.len() && slots[i as int].is_some() {
        lemma_first_free_from(slots, i + 1);
    }
}

/// The next slot, if any, is schedulable; if none, no slot is.
pub proof fn lemma_next_from(k: KernelView, step: nat)
    requires
        wf(k),
    ensures
        match next_from(k, step) {
            Some(i) => i < k.slots.len() && schedulable(k, i),
            None => forall|s: nat| step <= s < k.slots.len() ==> !schedulable(k, #[trigger] rr_index(k, s)),
        },
    decreases k.slots.len() - step,
{
    if step < k.slots.len() && !schedulable(k, rr_index(k, step)) {
        lemma_next_from(k, step + 1);
    }
}

impl Kernel {
    /// An empty table of `slots` slots, slot zero current, no process region
    /// enabled and the timer disarmed.
    pub fn new(slots: usize) -> (r: Kernel)
        requires
            1 <= slots <= MAX_PROGS,
        ensures
            wf(r@),
            r@.slots == Seq::new(slots as nat, |i: int| None::<ProgData>),
            r@.cur == 0,
            r@.next_serial == 0,
            r@.pmpcfg0 == 0,
            r@.mepc == 0,
            r@.mtimecmp == u64::MAX,
            !r@.booted,
    {
        let mut progs: Vec<Option<ProgData>> = Vec::new();
        let mut i: usize = 0;
        while i < slots
            invariant
                i <= slots,
                progs@ == Seq::new(i as nat, |j: int| None::<ProgData>),
            decreases slots - i,
        {
            progs.push(None);
            i = i + 1;
            assert(progs@ =~= Seq::new(i as nat, |j: int| None::<ProgData>));
        }
        Kernel {
            progs,
            cur: 0,
            next_serial: 0,
            pmpcfg0: 0,
            mepc: 0,
            mtimecmp: clint::init(),
            booted: false,
        }
    }

    /// Number of slots in the process table.
    pub fn slots(&self) -> (r: usize)
        ensures
            r == self@.slots.len(),
    {
        self.progs.len()
    }

    /// The occupant of slot `idx`, if any.
    pub fn slot(&self, idx: usize) -> (r: Option<ProgData>)
        requires
            idx < self@.slots.len(),
        ensures
            r == self@.slots[idx as int],
    {
        self.progs[idx]
    }

    /// The value to write into `pmpcfg0`.
    pub fn pmpcfg0(&self) -> (r: u64)
        ensures
            r == self@.pmpcfg0,
    {
        self.pmpcfg0
    }

    /// The value to write into `mepc` before returning to user mode.
    pub fn mepc(&self) -> (r: usize)
        ensures
            r == self@.mepc,
    {
        self.mepc
    }

    /// The value to write into the timer compare register.
    pub fn mtimecmp(&self) -> (r: u64)
        ensures
            r == self@.mtimecmp,
    {
        self.mtimecmp
    }

    /// Whether the last transfer of control started a process afresh.
    pub fn booted(&self) -> (r: bool)
        ensures
            r == self@.booted,
    {
        self.booted
    }

    /// Checks that a handle still denotes its registration.
    fn check(&self, prog: Prog) -> (r: Result<ProgData, Fatal>)
        ensures
            r.is_ok() <==> valid_handle(self@, prog@),
            r matches Ok(d) ==> Some(d) == self@.slots[prog@.idx as int],
            r matches Err(e) ==> e == handle_error(self@, prog),
    {
        if prog.idx >= self.progs.len() {
            return Err(Fatal::MissingProg { idx: prog.idx, id: prog.id });
        }
        match self.progs[prog.idx] {
            Some(cur) => {
                if cur.info.id == prog.id && cur.serial == prog.serial {
                    Ok(cur)
                } else {
                    Err(Fatal::StaleHandle { idx: prog.idx, id: prog.id, found: cur.info.id })
                }
            },
            None => Err(Fatal::MissingProg { idx: prog.idx, id: prog.id }),
        }
    }

    /// Registers a program in the first free slot, as a starting process.
    pub fn init_prog(&mut self, prog_info: Info) -> (r: Result<Prog, Fatal>)
        requires
            wf(old(self)@),
            prog_info.pmp_idx < USER_REGIONS,
        ensures
            wf(final(self)@),
            match first_free_from(old(self)@.slots, 0) {
                None => r == Err::<Prog, Fatal>(Fatal::NoFreeSlot) && final(self)@ == old(self)@,
                Some(f) => if old(self)@.next_serial == u64::MAX {
                    r == Err::<Prog, Fatal>(Fatal::SerialsExhausted) && final(self)@ == old(self)@
                } else {
                    &&& r matches Ok(h)
                    &&& h@ == (ProgView { idx: f, id: prog_info.id, serial: old(self)@.next_serial })
                    &&& final(self)@ == (KernelView {
                        slots: old(self)@.slots.update(
                            f as int,
                            Some(fresh(prog_info, old(self)@.next_serial)),
                        ),
                        next_serial: old(self)@.next_serial + 1,
                        ..old(self)@
                    })
                },
            },
    {
        proof {
            lemma_first_free_from(self@.slots, 0);
        }
        let idx = match self.get_free_idx() {
            Some(idx) => idx,
            None => return Err(Fatal::NoFreeSlot),
        };
        if self.next_serial == u64::MAX {
            return Err(Fatal::SerialsExhausted);
        }
        let serial = self.next_serial;
        self.progs.set(
            idx,
            Some(ProgData { info: prog_info, mepc: 0, sp: 0, state: State::Starting, serial }),
        );
        self.next_serial = serial + 1;
        Ok(Prog { idx, id: prog_info.id, serial })
    }

    /// Index of the first free slot.
    fn get_free_idx(&self) -> (r: Option<usize>)
        ensures
            r == (match first_free_from(self@.slots, 0) {
                Some(f) => Some(f as usize),
                None => None::<usize>,
            }),
    {
        let mut idx: usize = 0;
        while idx < self.progs.len()
            invariant
                idx <= self.progs.len(),
                first_free_from(self@.slots, 0) == first_free_from(self@.slots, idx as nat),
            decreases self.progs.len() - idx,
        {
            if self.progs[idx].is_none() {
                return Some(idx);
            }
            idx = idx + 1;
        }
        None
    }

    /// Clears the slot of a process, which must still be the handle's registration.
    pub fn end_prog(&mut self, prog: Prog) -> (r: Result<(), Fatal>)
        requires
            wf(old(self)@),
        ensures
            wf(final(self)@),
            r.is_ok() <==> valid_handle(old(self)@, prog@),
            r.is_ok() ==> final(self)@ == (KernelView {
                slots: old(self)@.slots.update(prog@.idx as int, None),
                ..old(self)@
            }),
            r matches Err(e) ==> e == handle_error(old(self)@, prog) && final(self)@ == old(self)@,
    {
        self.check(prog)?;
        self.progs.set(prog.idx, None);
        Ok(())
    }

    /// The handle on the executing process.
    pub fn cur(&self) -> (r: Result<Prog, Fatal>)
        requires
            wf(self@),
        ensures
            self@.slots[self@.cur as int].is_some() ==> (r matches Ok(h) && h@ == handle_at(
                self@,
                self@.cur,
            )),
            self@.slots[self@.cur as int].is_none() ==> r == Err::<Prog, Fatal>(Fatal::NotRunning),
    {
        match self.progs[self.cur] {
            Some(cur) => Ok(Prog { idx: self.cur, id: cur.info.id, serial: cur.serial }),
            None => Err(Fatal::NotRunning),
        }
    }

    /// The next ready or starting process in round-robin order: the scan starts
    /// right after the current slot and wraps once around the table.
    pub fn next(&self) -> (r: Option<Prog>)
        requires
            wf(self@),
        ensures
            match next_index(self@) {
                Some(i) => (r matches Some(h) && h@ == handle_at(self@, i)),
                None => r.is_none(),
            },
    {
        let len = self.progs.len();
        let start = self.cur + 1;
        let mut i: usize = 0;
        while i < len
            invariant
                len == self@.slots.len(),
                start == self@.cur + 1,
                wf(self@),
                i <= len,
                next_index(self@) == next_from(self@, i as nat),
            decreases len - i,
        {
            let idx = (start + i) % len;
            if let Some(next) = self.progs[idx] {
                if matches!(next.state, State::Rdy | State::Starting) {
                    return Some(Prog { idx, id: next.info.id, serial: next.serial });
                }
            }
            i = i + 1;
        }
        None
    }

    /// Makes a process the executing one: a ready process gets the processor
    /// and its memory region; a starting one is booted; a blocked one is refused.
    pub fn switch(&mut self, prog: Prog, now: u64) -> (r: Result<(), Fatal>)
        requires
            wf(old(self)@),
        ensures
            wf(final(self)@),
            r.is_ok() <==> valid_handle(old(self)@, prog@) && schedulable(old(self)@, prog@.idx),
            r.is_ok() ==> final(self)@ == switch_state(old(self)@, prog@.idx, now),
            r.is_ok() ==> exclusive(final(self)@.pmpcfg0, old(self)@.slots[prog@.idx as int].unwrap().info.pmp_idx as nat),
            r matches Err(e) ==> final(self)@ == old(self)@ && if valid_handle(old(self)@, prog@) {
                e == Fatal::SwitchToBlocked { id: prog@.id }
            } else {
                e == handle_error(old(self)@, prog)
            },
    {
        let prog_data = self.check(prog)?;
        match prog_data.state {
            State::Rdy => {
                self.cur = prog.idx;
                self.pmpcfg0 = pmp::switch_prog_pmp(prog_data.info.pmp_idx);
                Ok(())
            },
            State::Starting => self.boot_prog(prog, now),
            State::Blocked(_) => Err(Fatal::SwitchToBlocked { id: prog.id }),
        }
    }

    /// Starts a registered process: marks it ready, makes it the executing
    /// one with its memory region, sets its entry address as the return
    /// address and arms the timer. Control then goes to the process, not back
    /// to the caller.
    pub fn boot_prog(&mut self, prog: Prog, now: u64) -> (r: Result<(), Fatal>)
        requires
            wf(old(self)@),
        ensures
            wf(final(self)@),
            r.is_ok() <==> valid_handle(old(self)@, prog@),
            r.is_ok() ==> final(self)@ == boot_state(old(self)@, prog@.idx, now),
            r.is_ok() ==> exclusive(final(self)@.pmpcfg0, old(self)@.slots[prog@.idx as int].unwrap().info.pmp_idx as nat),
            r matches Err(e) ==> e == handle_error(old(self)@, prog) && final(self)@ == old(self)@,
    {
        let prog_data = self.check(prog)?;
        let ready = ProgData { state: State::Rdy, ..prog_data };
        self.progs.set(prog.idx, Some(ready));
        self.cur = prog.idx;
        self.pmpcfg0 = pmp::switch_prog_pmp(ready.info.pmp_idx);
        self.mepc = ready.info.boot_mepc;
        self.mtimecmp = clint::set_time_cmp(now);
        self.booted = true;
        proof {
            assert(self@.slots =~= boot_state(old(self)@, prog@.idx, now).slots);
        }
        Ok(())
    }

    /// Saves the trapped program counter and stack pointer of the executing
    /// process. A program counter below user code means the trap came from
    /// inside the kernel.
    pub fn save_cur_prog(&mut self, mepc: usize, mcause: usize, sp: usize) -> (r: Result<(), Fatal>)
        requires
            wf(old(self)@),
        ensures
            wf(final(self)@),
            mepc < USER1_BOOT_MEPC ==> r == Err::<(), Fatal>(Fatal::InterruptInException { mepc, mcause }),
            mepc >= USER1_BOOT_MEPC && old(self)@.slots[old(self)@.cur as int].is_none() ==> r == Err::<(), Fatal>(Fatal::NotRunning),
            r.is_ok() <==> mepc >= USER1_BOOT_MEPC && old(self)@.slots[old(self)@.cur as int].is_some(),
            r.is_ok() ==> final(self)@ == (KernelView {
                slots: old(self)@.slots.update(
                    old(self)@.cur as int,
                    Some(ProgData { mepc, sp, ..old(self)@.slots[old(self)@.cur as int].unwrap() }),
                ),
                ..old(self)@
            }),
            r.is_err() ==> final(self)@ == old(self)@,
    {
        if mepc < USER1_BOOT_MEPC {
            return Err(Fatal::InterruptInException { mepc, mcause });
        }
        match self.progs[self.cur] {
            Some(prog) => {
                self.progs.set(self.cur, Some(ProgData { mepc, sp, ..prog }));
                Ok(())
            },
            None => Err(Fatal::NotRunning),
        }
    }

    /// The saved stack pointer of the executing process, with its saved
    /// program counter set as the return address; the process must be ready.
    pub fn restore_cur_prog(&mut self) -> (r: Result<usize, Fatal>)
        requires
            wf(old(self)@),
        ensures
            wf(final(self)@),
            old(self)@.slots[old(self)@.cur as int].is_none() ==> r == Err::<usize, Fatal>(Fatal::NotRunning),
            old(self)@.slots[old(self)@.cur as int] matches Some(d) ==> if d.state == State::Rdy {
                r == Ok::<usize, Fatal>(d.sp) && final(self)@ == (KernelView { mepc: d.mepc, ..old(self)@ })
            } else {
                r == Err::<usize, Fatal>(Fatal::RestoreNotReady { id: d.info.id })
            },
            r.is_err() ==> final(self)@ == old(self)@,
    {
        match self.progs[self.cur] {
            Some(prog) => {
                if matches!(prog.state, State::Rdy) {
                    self.mepc = prog.mepc;
                    Ok(prog.sp)
                } else {
                    Err(Fatal::RestoreNotReady { id: prog.info.id })
                }
            },
            None => Err(Fatal::NotRunning),
        }
    }

    /// Arms the timer to fire one tick after `now`.
    pub fn arm_timer(&mut self, now: u64)
        ensures
            final(self)@ == (KernelView { mtimecmp: next_time_cmp(now), ..old(self)@ }),
    {
        self.mtimecmp = clint::set_time_cmp(now);
    }

    /// Marks a trap entry: control has not been handed to a fresh process yet.
    pub fn clear_booted(&mut self)
        ensures
            final(self)@ == (KernelView { booted: false, ..old(self)@ }),
    {
        self.booted = false;
    }
}

/// The program counter `pc` advanced past one 4-byte instruction, wrapping as
/// the program counter does.
pub open spec fn advance_pc(pc: usize) -> usize {
    if pc + 4 > usize::MAX {
        (pc + 4 - (usize::MAX + 1)) as usize
    } else {
        (pc + 4) as usize
    }
}

impl Prog {
    /// The slot index the handle names.
    pub fn idx(&self) -> (r: usize)
        ensures
            r as nat == self@.idx,
    {
        self.idx
    }

    /// Advances the saved program counter past the trapping instruction.
    pub fn increment_mepc(&self, kernel: &mut Kernel) -> (r: Result<(), Fatal>)
        requires
            wf(old(kernel)@),
        ensures
            wf(final(kernel)@),
            r.is_ok() <==> valid_handle(old(kernel)@, self@),
            r.is_ok() ==> final(kernel)@ == (KernelView {
                slots: old(kernel)@.slots.update(
                    self@.idx as int,
                    Some(ProgData {
                        mepc: advance_pc(old(kernel)@.slots[self@.idx as int].unwrap().mepc),
                        ..old(kernel)@.slots[self@.idx as int].unwrap()
                    }),
                ),
                ..old(kernel)@
            }),
            r matches Err(e) ==> e == handle_error(old(kernel)@, *self) && final(kernel)@ == old(kernel)@,
    {
        let d = kernel.check(*self)?;
        kernel.progs.set(self.idx, Some(ProgData { mepc: d.mepc.wrapping_add(4), ..d }));
        Ok(())
    }

    /// The identity of the process.
    pub fn id(&self, kernel: &Kernel) -> (r: Result<Id, Fatal>)
        ensures
            r.is_ok() <==> valid_handle(kernel@, self@),
            r matches Ok(id) ==> id == self@.id,
            r matches Err(e) ==> e == handle_error(kernel@, *self),
    {
        let d = kernel.check(*self)?;
        Ok(d.info.id)
    }

    /// The registration the process was created from.
    pub fn prog_info(&self, kernel: &Kernel) -> (r: Result<Info, Fatal>)
        ensures
            r.is_ok() <==> valid_handle(kernel@, self@),
            r matches Ok(info) ==> info == kernel@.slots[self@.idx as int].unwrap().info,
            r matches Err(e) ==> e == handle_error(kernel@, *self),
    {
        let d = kernel.check(*self)?;
        Ok(d.info)
    }

    /// The saved stack pointer of the process.
    pub fn sp(&self, kernel: &Kernel) -> (r: Result<usize, Fatal>)
        ensures
            r.is_ok() <==> valid_handle(kernel@, self@),
            r matches Ok(sp) ==> sp == kernel@.slots[self@.idx as int].unwrap().sp,
            r matches Err(e) ==> e == handle_error(kernel@, *self),
    {
        let d = kernel.check(*self)?;
        Ok(d.sp)
    }

    /// Whether the process is blocked, for whatever reason.
    pub fn is_blocked(&self, kernel: &Kernel) -> (r: Result<bool, Fatal>)
        ensures
            r.is_ok() <==> valid_handle(kernel@, self@),
            r matches Ok(b) ==> b == kernel@.slots[self@.idx as int].unwrap().state is Blocked,
            r matches Err(e) ==> e == handle_error(kernel@, *self),
    {
        let d = kernel.check(*self)?;
        Ok(matches!(d.state, State::Blocked(_)))
    }

    /// Sets the state of the process: ready, or blocked for `reason`.
    fn set_state(&self, kernel: &mut Kernel, state: State) -> (r: Result<(), Fatal>)
        requires
            wf(old(kernel)@),
        ensures
            wf(final(kernel)@),
            r.is_ok() <==> valid_handle(old(kernel)@, self@),
            r.is_ok() ==> final(kernel)@ == (KernelView {
                slots: old(kernel)@.slots.update(
                    self@.idx as int,
                    Some(ProgData { state, ..old(kernel)@.slots[self@.idx as int].unwrap() }),
                ),
                ..old(kernel)@
            }),
            r matches Err(e) ==> e == handle_error(old(kernel)@, *self) && final(kernel)@ == old(kernel)@,
    {
        let d = kernel.check(*self)?;
        kernel.progs.set(self.idx, Some(ProgData { state, ..d }));
        Ok(())
    }

    /// Makes the process ready.
    pub fn set_rdy(&self, kernel: &mut Kernel) -> (r: Result<(), Fatal>)
        requires
            wf(old(kernel)@),
        ensures
            wf(final(kernel)@),
            r.is_ok() <==> valid_handle(old(kernel)@, self@),
            r.is_ok() ==> final(kernel)@ == (KernelView {
                slots: old(kernel)@.slots.update(
                    self@.idx as int,
                    Some(ProgData { state: State::Rdy, ..old(kernel)@.slots[self@.idx as int].unwrap() }),
                ),
                ..old(kernel)@
            }),
            r matches Err(e) ==> e == handle_error(old(kernel)@, *self) && final(kernel)@ == old(kernel)@,
    {
        self.set_state(kernel, State::Rdy)
    }

    /// Blocks the process for `reason`.
    pub fn set_blocked(&self, kernel: &mut Kernel, reason: Reason) -> (r: Result<(), Fatal>)
        requires
            wf(old(kernel)@),
        ensures
            wf(final(kernel)@),
            r.is_ok() <==> valid_handle(old(kernel)@, self@),
            r.is_ok() ==> final(kernel)@ == (KernelView {
                slots: old(kernel)@.slots.update(
                    self@.idx as int,
                    Some(ProgData { state: State::Blocked(reason), ..old(kernel)@.slots[self@.idx as int].unwrap() }),
                ),
                ..old(kernel)@
            }),
            r matches Err(e) ==> e == handle_error(old(kernel)@, *self) && final(kernel)@ == old(kernel)@,
    {
        self.set_state(kernel, State::Blocked(reason))
    }
}

/// Handle and table agree: after a successful boot or switch, the handle on
/// the executing process names the slot that was switched to and the
/// registration that slot holds.
pub proof fn lemma_current_coherent(pre: KernelView, h: Prog, now: u64, post: KernelView)
    requires
        wf(pre),
        valid_handle(pre, h@),
        schedulable(pre, h@.idx),
        post == switch_state(pre, h@.idx, now) || post == boot_state(pre, h@.idx, now),
    ensures
        post.cur == h@.idx,
        post.slots[post.cur as int].is_some(),
        handle_at(post, post.cur) == h@,
        valid_handle(post, handle_at(post, post.cur)),
{
}

/// After a successful boot or switch, exactly one process region, that of the
/// executing process, is permission-enabled.
pub proof fn lemma_switch_exclusive(pre: KernelView, h: Prog, now: u64, post: KernelView)
    requires
        wf(pre),
        valid_handle(pre, h@),
        schedulable(pre, h@.idx),
        post == switch_state(pre, h@.idx, now) || post == boot_state(pre, h@.idx, now),
    ensures
        exclusive(post.pmpcfg0, post.slots[post.cur as int].unwrap().info.pmp_idx as nat),
{
    let idx = pre.slots[h@.idx as int].unwrap().info.pmp_idx as nat;
    pmp::lemma_pmp_word_exclusive(idx);
}

/// A handle issued for slot `k` is refused once the occupant of slot `k` has
/// been replaced: ending a process and registering anew in its slot gives the
/// slot a registration number that no earlier handle carries.
pub proof fn lemma_stale_handle(
    pre: KernelView,
    h: Prog,
    ended: KernelView,
    info: Info,
    post: KernelView,
)
    requires
        wf(pre),
        valid_handle(pre, h@),
        ended == (KernelView { slots: pre.slots.update(h@.idx as int, None), ..pre }),
        pre.next_serial < u64::MAX,
        post == (KernelView {
            slots: ended.slots.update(h@.idx as int, Some(fresh(info, ended.next_serial))),
            next_serial: ended.next_serial + 1,
            ..ended
        }),
    ensures
        !valid_handle(ended, h@),
        !valid_handle(post, h@),
        handle_error(post, h) == (Fatal::StaleHandle { idx: h@.idx as usize, id: h@.id, found: info.id }),
{
}

/// The slot reached after `n` rotations when every slot is schedulable.
pub open spec fn rotation(k: KernelView, n: nat) -> nat {
    (k.cur + n) % k.slots.len()
}

/// Every slot schedulable.
pub open spec fn all_schedulable(k: KernelView) -> bool {
    forall|i: nat| i < k.slots.len() ==> #[trigger] schedulable(k, i)
}

/// With every slot schedulable, the next slot is the one right after the
/// current one, wrapping at the end of the table.
pub proof fn lemma_next_when_all_schedulable(k: KernelView)
    requires
        wf(k),
        all_schedulable(k),
    ensures
        next_index(k) == Some(rotation(k, 1)),
{
    assert(rr_index(k, 0) < k.slots.len());
    assert(schedulable(k, rr_index(k, 0)));
}

/// Every slot holds a ready process.
pub open spec fn all_ready(k: KernelView) -> bool {
    forall|i: nat|
        i < k.slots.len() ==> (#[trigger] k.slots[i as int]).is_some() && k.slots[i as int].unwrap().state
            == State::Rdy
}

/// Distinct numbers of rotations, at most a full turn, land on distinct slots.
pub proof fn lemma_rotation_distinct(cur: nat, a: nat, b: nat, len: nat)
    requires
        1 <= a <= len,
        1 <= b <= len,
        a != b,
        cur < len,
    ensures
        (cur + a) % len != (cur + b) % len,
{
    if a < b {
        lemma_rotation_distinct_ordered(cur, a, b, len);
    } else {
        lemma_rotation_distinct_ordered(cur, b, a, len);
    }
}

proof fn lemma_rotation_distinct_ordered(cur: nat, a: nat, b: nat, len: nat)
    requires
        1 <= a < b <= len,
        cur < len,
    ensures
        (cur + a) % len != (cur + b) % len,
{
    let x = (cur + a) as int;
    let d = (b - a) as int;
    let l = len as int;
    vstd::arithmetic::div_mod::lemma_fundamental_div_mod(x, l);
    vstd::arithmetic::div_mod::lemma_fundamental_div_mod(x + d, l);
    let q1 = x / l;
    let q2 = (x + d) / l;
    if x % l == (x + d) % l {
        assert(d == (q2 - q1) * l) by (nonlinear_arith)
            requires
                x == l * q1 + x % l,
                x + d == l * q2 + (x + d) % l,
                x % l == (x + d) % l,
        ;
        assert(false) by (nonlinear_arith)
            requires
                d == (q2 - q1) * l,
                0 < d < l,
        ;
    }
}

} // verus!
