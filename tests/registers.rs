use kernel::bitfield::{BinaryOperations, BinaryStruct, Byte, MaxDigits};
use kernel::clint::{init as clint_init, set_time_cmp};
use kernel::cpu::{SatpMode, build_satp};
use kernel::memory_mapping::MemoryMapping;
use kernel::plic::{self, IRQ};
use kernel::pmp::switch_prog_pmp;
use kernel::setup::{MIE_MTIE, setup_mie, setup_mstatus};
use kernel::stack::Stack;
use kernel::trap::decode_mcause;
use kernel::uart::{UART, UartRegister, init as uart_init};
use kernel::user_calls::{decode_char, format_hex};

#[test]
fn bit_round_trip_within_width() {
    let mut b = BinaryStruct::from(0u8);
    for bit in 0..8 {
        b.at(bit, true);
        assert!(b.is_set(bit));
        b.at(bit, false);
        assert!(!b.is_set(bit));
    }
    let mut w = BinaryStruct::from(0u64);
    w.at(63, true);
    assert!(w.is_set(63));
    assert_eq!(w.get(), 1u64 << 63);
    w.at(63, false);
    assert_eq!(w.get(), 0);
    let mut h = BinaryStruct::from(0xffff_ffffu32);
    h.at(31, false);
    assert!(!h.is_set(31));
    assert_eq!(h.get(), 0x7fff_ffff);
}

#[test]
fn bits_beyond_width_read_unset_and_ignore_writes() {
    let mut b = BinaryStruct::from(0xffu8);
    assert!(!b.is_set(8));
    b.at(8, true);
    b.at(200, false);
    assert_eq!(b.get(), 0xff);
    let mut w = BinaryStruct::from(usize::MAX);
    assert!(!w.is_set(64));
    w.at(64, false);
    assert_eq!(w.get(), usize::MAX);
}

#[test]
fn writes_keep_other_bits() {
    let mut b: Byte = BinaryStruct::from(0b1010_0101u8);
    b.at(1, true);
    assert_eq!(b.get(), 0b1010_0111);
    b.write_register_entry((7, false));
    assert_eq!(b.get(), 0b0010_0111);
    let mut m = BinaryStruct::from(0usize);
    m.write_register_entry(MIE_MTIE);
    assert_eq!(m.get(), 0x80);
}

#[test]
fn width_operations() {
    assert_eq!(u8::bit_size(), 8);
    assert_eq!(u32::bit_size(), 32);
    assert_eq!(u64::bit_size(), 64);
    assert_eq!(<u8 as BinaryOperations>::one(), 1);
    assert_eq!(<u32 as BinaryOperations>::zero(), 0);
    assert_eq!(<u64 as BinaryOperations>::ten(), 10);
    assert_eq!(0x0fu8.inverse(), 0xf0);
    assert_eq!(<u8 as BinaryOperations>::from(0x1ff), 0xff);
    assert_eq!(<u32 as BinaryOperations>::from(7), 7);
    assert_eq!(0x1234u64.into_u8(), 0x34);
    assert_eq!(0x80u8.test_bit(7), true);
    assert_eq!(0x80u8.with_bit(7, false), 0);
    assert_eq!(<usize as MaxDigits<20>>::max_digits(), [0u8; 20]);
}

#[test]
fn cause_is_split_into_flag_and_code() {
    assert_eq!(decode_mcause((1usize << 63) | 7), (true, 7));
    assert_eq!(decode_mcause((1usize << 63) | 11), (true, 11));
    assert_eq!(decode_mcause(8), (false, 8));
}

#[test]
fn pmp_words() {
    assert_eq!(switch_prog_pmp(0), 0x0000_0000_000f_0000);
    assert_eq!(switch_prog_pmp(1), 0x0000_0000_0f00_0000);
    assert_eq!(switch_prog_pmp(5), 0x0f00_0000_0000_0000);
}

#[test]
fn timer_compare_values() {
    assert_eq!(set_time_cmp(5), 10_000_005);
    assert_eq!(set_time_cmp(u64::MAX), 9_999_999);
    assert_eq!(clint_init(), u64::MAX);
}

#[test]
fn plic_setup_and_completion() {
    let writes = plic::init();
    assert_eq!(writes[0], (0x0c00_0028, 5));
    assert_eq!(writes[1], (0x0c00_2000, 0x400));
    assert_eq!(writes[2], (0x0c20_0000, 0));
    assert_eq!(IRQ::Uart.id(), 10);
    assert_eq!(plic::read_claim(10), Ok(IRQ::Uart));
    // Completing the same source twice writes the same acknowledgement.
    assert_eq!(plic::write_complete(IRQ::Uart), (0x0c20_0004, 10));
    assert_eq!(plic::write_complete(IRQ::Uart), (0x0c20_0004, 10));
}

#[test]
fn boot_control_registers() {
    assert_eq!(setup_mstatus(0x1800), 0x8);
    assert_eq!(setup_mstatus(0x1808), 0x8);
    assert_eq!(setup_mstatus(0xa000_0000_0000_0000), 0xa000_0000_0000_0008);
    assert_eq!(setup_mie(0), 0x888);
    assert_eq!(setup_mie(0x20), 0x8a8);
}

#[test]
fn satp_layout() {
    assert_eq!(build_satp(SatpMode::Off, 0, 0), 0);
    assert_eq!(build_satp(SatpMode::Sv39, 1, 0x8020_0000), (8u64 << 60) | (1u64 << 44) | 0x80200);
    assert_eq!(build_satp(SatpMode::Sv48, 0x1_0002, 0x1000), (9u64 << 60) | (2u64 << 44) | 1);
}

#[test]
fn uart_registers_and_bits() {
    let regs = UartRegister::new(0x1000_0000);
    assert_eq!(regs.rbr_thr_dll.address(), 0x1000_0000);
    assert_eq!(regs.lsr.address(), 0x1000_0005);
    assert_eq!(regs.scr.address(), 0x1000_0007);
    let uart = UART::new();
    assert_eq!(uart.reg.ier_dlm.address(), 0x1000_0001);
    assert!(UART::can_transmit(BinaryStruct::from(0x20u8)));
    assert!(!UART::can_transmit(BinaryStruct::from(0x01u8)));
    assert!(UART::has_data(BinaryStruct::from(0x01u8)));
    assert!(!UART::has_data(BinaryStruct::from(0x60u8)));
    assert_eq!(uart_init().get(), 1);
}

#[test]
fn trap_frame_slots() {
    let mut regs = [0usize; 32];
    regs[9] = 11;
    regs[10] = 22;
    regs[16] = 33;
    let mut s = Stack::new(0x8010_f000, regs);
    assert_eq!((s.a0(), s.a1(), s.a7()), (11, 22, 33));
    s.set_ret(44);
    assert_eq!(s.a0(), 44);
    assert_eq!(s.regs()[9], 44);
    assert_eq!(s.regs()[10], 22);
    assert_eq!(s.address(), 0x8010_f000);
    let m: MemoryMapping<u32> = MemoryMapping::new(0x0c20_0004);
    assert_eq!(m.address(), 0x0c20_0004);
}

#[test]
fn numbers_print_as_hex() {
    assert_eq!(&format_hex(1024), b"0x0000000000000400");
    assert_eq!(&format_hex(0xdead_beef), b"0x00000000deadbeef");
    assert_eq!(&format_hex(u64::MAX), b"0xffffffffffffffff");
}

#[test]
fn get_char_results() {
    assert_eq!(decode_char(0), None);
    assert_eq!(decode_char(0x41), Some('A'));
    assert_eq!(decode_char(0x141), Some('A'));
}
