use kernel::plic::IRQ;
use kernel::scheduler::{Fatal, Kernel, State};
use kernel::stack::Stack;
use kernel::system_calls::{SysCall, SysCallAction};
use kernel::trap::{
    Resume, TrapKind, exception_entry, exception_exit, handle_ecall, handle_external, handle_timer,
};
use kernel::user_prog::{Id, Info, USER1_BOOT_MEPC, USER2_BOOT_MEPC};

const TIMER_CAUSE: usize = (1usize << 63) | 7;
const EXTERNAL_CAUSE: usize = (1usize << 63) | 11;
const ECALL_CAUSE: usize = 8;

fn ecall_frame(sp: usize, number: usize, a0: usize, a1: usize) -> Stack {
    let mut regs = [0usize; 32];
    regs[16] = number;
    regs[9] = a0;
    regs[10] = a1;
    Stack::new(sp, regs)
}

#[test]
fn two_programs_timer_and_yield() {
    let mut k = Kernel::new(2);
    let p1 = k.init_prog(Info::user1()).unwrap();
    let p2 = k.init_prog(Info::user2()).unwrap();
    assert_eq!(p1.idx(), 0);
    assert_eq!(p2.idx(), 1);

    k.boot_prog(p1, 1000).unwrap();
    assert_eq!(k.cur(), Ok(p1));
    assert_eq!(k.mepc(), USER1_BOOT_MEPC);
    assert_eq!(k.mtimecmp(), 1000 + 10_000_000);
    assert!(k.booted());

    // A timer interrupt while the first program runs starts the second.
    assert_eq!(exception_entry(&mut k, 0x8010_0040, TIMER_CAUSE, 0x8010_f000, 0), Ok(TrapKind::Timer));
    assert_eq!(handle_timer(&mut k, 2000), Ok(()));
    assert_eq!(k.cur(), Ok(p2));
    assert_eq!(exception_exit(&mut k), Ok(Resume::Boot { mepc: USER2_BOOT_MEPC }));
    assert_eq!(k.slot(1).unwrap().state, State::Rdy);

    // The next one returns to the first, resuming its saved frame.
    assert_eq!(exception_entry(&mut k, 0x8020_0010, TIMER_CAUSE, 0x8020_f000, 0), Ok(TrapKind::Timer));
    assert_eq!(handle_timer(&mut k, 3000), Ok(()));
    assert_eq!(k.cur(), Ok(p1));
    assert_eq!(k.mtimecmp(), 3000 + 10_000_000);
    assert_eq!(exception_exit(&mut k), Ok(Resume::Restore { sp: 0x8010_f000, mepc: 0x8010_0040 }));

    // A yield hands over at once, past the calling instruction.
    assert_eq!(exception_entry(&mut k, 0x8010_0080, ECALL_CAUSE, 0x8010_e000, 0), Ok(TrapKind::EnvironmentCall));
    let frame = ecall_frame(0x8010_e000, SysCall::Yield.number(), 0, 0);
    assert_eq!(handle_ecall(&mut k, &frame, 4000), Ok(SysCallAction::Done));
    assert_eq!(k.cur(), Ok(p2));
    assert_eq!(k.slot(0).unwrap().mepc, 0x8010_0084);
    assert_eq!(exception_exit(&mut k), Ok(Resume::Restore { sp: 0x8020_f000, mepc: 0x8020_0010 }));
}

#[test]
fn exit_restarts_program_and_stales_its_handle() {
    let mut k = Kernel::new(2);
    let p1 = k.init_prog(Info::user1()).unwrap();
    let p2 = k.init_prog(Info::user2()).unwrap();
    k.boot_prog(p1, 0).unwrap();
    exception_entry(&mut k, 0x8010_0040, TIMER_CAUSE, 0x8010_f000, 0).unwrap();
    handle_timer(&mut k, 10).unwrap();
    exception_entry(&mut k, 0x8020_0040, TIMER_CAUSE, 0x8020_f000, 0).unwrap();
    handle_timer(&mut k, 20).unwrap();
    exception_exit(&mut k).unwrap();
    assert_eq!(k.cur(), Ok(p1));

    // The first program exits.
    assert_eq!(exception_entry(&mut k, 0x8010_0100, ECALL_CAUSE, 0x8010_e000, 0), Ok(TrapKind::EnvironmentCall));
    let frame = ecall_frame(0x8010_e000, SysCall::Exit.number(), 0, 0);
    assert_eq!(handle_ecall(&mut k, &frame, 30), Ok(SysCallAction::Done));
    assert_eq!(k.cur(), Ok(p2));

    // Its slot holds a fresh starting process of the same program.
    let fresh = k.next().unwrap();
    assert_eq!(fresh.idx(), 0);
    assert_ne!(fresh, p1);
    let data = k.slot(0).unwrap();
    assert_eq!(data.state, State::Starting);
    assert_eq!(data.info.boot_mepc, USER1_BOOT_MEPC);
    assert_eq!(fresh.prog_info(&k), Ok(Info::user1()));

    // The old handle is stale.
    assert_eq!(p1.id(&k), Err(Fatal::StaleHandle { idx: 0, id: Id::User1, found: Id::User1 }));
    assert_eq!(k.switch(p1, 40), Err(Fatal::StaleHandle { idx: 0, id: Id::User1, found: Id::User1 }));

    // The next tick starts the fresh process.
    exception_exit(&mut k).unwrap();
    exception_entry(&mut k, 0x8020_0200, TIMER_CAUSE, 0x8020_f000, 0).unwrap();
    handle_timer(&mut k, 50).unwrap();
    assert_eq!(k.cur(), Ok(fresh));
    assert_eq!(k.slot(0).unwrap().state, State::Rdy);
    assert_eq!(exception_exit(&mut k), Ok(Resume::Boot { mepc: USER1_BOOT_MEPC }));
}

#[test]
fn current_matches_table_after_boot_and_switch() {
    let mut k = Kernel::new(2);
    let p1 = k.init_prog(Info::user1()).unwrap();
    let p2 = k.init_prog(Info::user2()).unwrap();
    k.boot_prog(p1, 0).unwrap();
    let cur = k.cur().unwrap();
    assert_eq!(cur, p1);
    assert_eq!(cur.id(&k), Ok(k.slot(cur.idx()).unwrap().info.id));
    k.boot_prog(p2, 0).unwrap();
    k.switch(p1, 0).unwrap();
    let cur = k.cur().unwrap();
    assert_eq!(cur, p1);
    assert_eq!(cur.id(&k), Ok(Id::User1));
}

#[test]
fn round_robin_visits_each_slot_once() {
    let mut k = Kernel::new(3);
    let a = k.init_prog(Info { id: Id::User1, boot_mepc: 0x8010_0000, pmp_idx: 0 }).unwrap();
    let b = k.init_prog(Info { id: Id::User2, boot_mepc: 0x8020_0000, pmp_idx: 1 }).unwrap();
    let c = k.init_prog(Info { id: Id::User1, boot_mepc: 0x8030_0000, pmp_idx: 2 }).unwrap();
    k.boot_prog(a, 0).unwrap();
    k.boot_prog(b, 0).unwrap();
    k.boot_prog(c, 0).unwrap();
    k.switch(b, 0).unwrap();
    let mut visited = Vec::new();
    for n in 0..3u64 {
        exception_entry(&mut k, 0x8010_0000 + 8 * n as usize, TIMER_CAUSE, 0x8010_f000, 0).unwrap();
        handle_timer(&mut k, n).unwrap();
        visited.push(k.cur().unwrap().idx());
    }
    assert_eq!(visited, vec![2, 0, 1]);
}

#[test]
fn pmp_enables_only_the_current_region() {
    let mut k = Kernel::new(2);
    let p1 = k.init_prog(Info::user1()).unwrap();
    let p2 = k.init_prog(Info::user2()).unwrap();
    assert_eq!(k.pmpcfg0(), 0);
    k.boot_prog(p1, 0).unwrap();
    assert_eq!(k.pmpcfg0(), 0x0f << 16);
    k.boot_prog(p2, 0).unwrap();
    assert_eq!(k.pmpcfg0(), 0x0f << 24);
    k.switch(p1, 0).unwrap();
    let cfg = k.pmpcfg0();
    let enabled: Vec<usize> = (0..8).filter(|r| (cfg >> (8 * r)) & 0x7 != 0).collect();
    assert_eq!(enabled, vec![2]);
}

#[test]
fn stale_and_missing_handles_are_refused() {
    let mut k = Kernel::new(2);
    let p1 = k.init_prog(Info::user1()).unwrap();
    k.end_prog(p1).unwrap();
    assert_eq!(p1.id(&k), Err(Fatal::MissingProg { idx: 0, id: Id::User1 }));
    assert_eq!(k.end_prog(p1), Err(Fatal::MissingProg { idx: 0, id: Id::User1 }));
    let other = k.init_prog(Info::user2()).unwrap();
    assert_eq!(other.idx(), 0);
    let stale = Err(Fatal::StaleHandle { idx: 0, id: Id::User1, found: Id::User2 });
    assert_eq!(p1.id(&k), stale);
    assert_eq!(p1.prog_info(&k).map(|i| i.id), stale);
    assert_eq!(p1.sp(&k), stale.map(|_| 0));
    assert_eq!(p1.increment_mepc(&mut k), stale.map(|_| ()));
    assert_eq!(p1.set_rdy(&mut k), stale.map(|_| ()));
    assert_eq!(p1.is_blocked(&k), stale.map(|_| false));
    assert_eq!(k.boot_prog(p1, 0), stale.map(|_| ()));
    assert_eq!(k.switch(p1, 0), stale.map(|_| ()));
    assert_eq!(k.end_prog(p1), stale.map(|_| ()));
    assert_eq!(other.id(&k), Ok(Id::User2));
}

#[test]
fn full_table_is_refused() {
    let mut k = Kernel::new(2);
    k.init_prog(Info::user1()).unwrap();
    k.init_prog(Info::user2()).unwrap();
    assert_eq!(k.init_prog(Info::user1()), Err(Fatal::NoFreeSlot));
}

#[test]
fn nothing_running_is_fatal() {
    let mut k = Kernel::new(2);
    assert_eq!(k.cur(), Err(Fatal::NotRunning));
    assert_eq!(k.restore_cur_prog(), Err(Fatal::NotRunning));
    assert_eq!(k.save_cur_prog(0x8010_0000, 0, 0), Err(Fatal::NotRunning));
    assert_eq!(k.next(), None);
    assert_eq!(handle_timer(&mut k, 0), Err(Fatal::NoNextProg));
}

#[test]
fn restoring_a_starting_process_is_fatal() {
    let mut k = Kernel::new(2);
    k.init_prog(Info::user1()).unwrap();
    assert_eq!(k.restore_cur_prog(), Err(Fatal::RestoreNotReady { id: Id::User1 }));
    assert_eq!(exception_exit(&mut k), Err(Fatal::RestoreNotReady { id: Id::User1 }));
}

#[test]
fn trap_from_kernel_code_is_fatal() {
    let mut k = Kernel::new(1);
    let p = k.init_prog(Info::user1()).unwrap();
    k.boot_prog(p, 0).unwrap();
    assert_eq!(
        exception_entry(&mut k, 0x8000_1000, TIMER_CAUSE, 0, 0),
        Err(Fatal::InterruptInException { mepc: 0x8000_1000, mcause: TIMER_CAUSE })
    );
}

#[test]
fn unsupported_causes_and_faults_are_fatal() {
    let mut k = Kernel::new(1);
    let p = k.init_prog(Info::user1()).unwrap();
    k.boot_prog(p, 0).unwrap();
    assert_eq!(
        exception_entry(&mut k, 0x8010_0000, (1usize << 63) | 3, 0, 0),
        Err(Fatal::UnsupportedInterrupt { code: 3 })
    );
    assert_eq!(exception_entry(&mut k, 0x8010_0000, 2, 0, 0), Err(Fatal::UnsupportedException { code: 2 }));
    assert_eq!(
        exception_entry(&mut k, 0x8010_0010, 1, 0, 0x9000_0000),
        Err(Fatal::InstructionAccessFault { id: Id::User1, mepc: 0x8010_0010, mtval: 0x9000_0000 })
    );
    assert_eq!(
        exception_entry(&mut k, 0x8010_0020, 5, 0, 0x8020_0000),
        Err(Fatal::LoadAccessFault { id: Id::User1, mepc: 0x8010_0020, mtval: 0x8020_0000 })
    );
}

#[test]
fn system_calls_hand_out_io_and_refuse_unknown_numbers() {
    let mut k = Kernel::new(1);
    let p = k.init_prog(Info::user1()).unwrap();
    k.boot_prog(p, 0).unwrap();
    exception_entry(&mut k, 0x8010_0000, ECALL_CAUSE, 0x8010_e000, 0).unwrap();
    let get = ecall_frame(0x8010_e000, SysCall::GetChar.number(), 0, 0);
    assert_eq!(handle_ecall(&mut k, &get, 0), Ok(SysCallAction::GetChar));
    let print = ecall_frame(0x8010_e000, SysCall::Print.number(), 0x8010_2000, 12);
    assert_eq!(handle_ecall(&mut k, &print, 0), Ok(SysCallAction::Print { ptr: 0x8010_2000, len: 12 }));
    let bad = ecall_frame(0x8010_e000, 9, 0, 0);
    assert_eq!(handle_ecall(&mut k, &bad, 0), Err(Fatal::IllegalSyscall { number: 9 }));
    assert_eq!(SysCall::GetChar.number(), 0);
    assert_eq!(SysCall::Print.number(), 1);
    assert_eq!(SysCall::Yield.number(), 2);
    assert_eq!(SysCall::Exit.number(), 3);
}

#[test]
fn yield_alone_keeps_the_caller() {
    let mut k = Kernel::new(1);
    let p = k.init_prog(Info::user1()).unwrap();
    k.boot_prog(p, 0).unwrap();
    exception_entry(&mut k, 0x8010_0000, ECALL_CAUSE, 0x8010_e000, 0).unwrap();
    let frame = ecall_frame(0x8010_e000, SysCall::Yield.number(), 0, 0);
    assert_eq!(handle_ecall(&mut k, &frame, 0), Ok(SysCallAction::Done));
    assert_eq!(k.cur(), Ok(p));
    assert_eq!(exception_exit(&mut k), Ok(Resume::Restore { sp: 0x8010_e000, mepc: 0x8010_0004 }));
}

#[test]
fn external_interrupt_claims_the_uart() {
    let mut k = Kernel::new(1);
    let p = k.init_prog(Info::user1()).unwrap();
    k.boot_prog(p, 0).unwrap();
    assert_eq!(exception_entry(&mut k, 0x8010_0000, EXTERNAL_CAUSE, 0x8010_e000, 0), Ok(TrapKind::External));
    assert_eq!(handle_external(10), Ok(IRQ::Uart));
    assert_eq!(handle_external(0), Err(Fatal::UnknownIrq { claim: 0 }));
    assert_eq!(handle_external(7), Err(Fatal::UnknownIrq { claim: 7 }));
    assert_eq!(exception_exit(&mut k), Ok(Resume::Restore { sp: 0x8010_e000, mepc: 0x8010_0000 }));
}

#[test]
fn saved_state_and_pc_advance() {
    let mut k = Kernel::new(1);
    let p = k.init_prog(Info::user1()).unwrap();
    k.boot_prog(p, 0).unwrap();
    k.save_cur_prog(0x8010_0100, 0, 0x8010_ff00).unwrap();
    assert_eq!(p.sp(&k), Ok(0x8010_ff00));
    p.increment_mepc(&mut k).unwrap();
    assert_eq!(k.slot(0).unwrap().mepc, 0x8010_0104);
    assert_eq!(p.is_blocked(&k), Ok(false));
    k.clear_booted();
    assert_eq!(k.restore_cur_prog(), Ok(0x8010_ff00));
    assert_eq!(k.mepc(), 0x8010_0104);
    assert_eq!(k.slots(), 1);
}

#[test]
fn user_programs_have_their_addresses() {
    assert_eq!(Info::user1(), Info { id: Id::User1, boot_mepc: 0x8010_0000, pmp_idx: 0 });
    assert_eq!(Info::user2(), Info { id: Id::User2, boot_mepc: 0x8020_0000, pmp_idx: 1 });
    assert_eq!(USER2_BOOT_MEPC, 0x8020_0000);
}
