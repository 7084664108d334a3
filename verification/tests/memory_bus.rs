//! Memory bus tests: endianness marshalling round trips, byte/word access,
//! the peripheral window, bounds faults, and loads/stores through the CPU
//! instruction semantics.

use riscv_vm::idecoder::{ITypeInst, STypeInst};
use riscv_vm::memory::{Fault, Memory, PERIPHERAL_BASE};

#[test]
fn pack_unpack_round_trip_little_endian() {
    let mem = Memory::new();
    for &v in &[0u32, 1, 0xDEAD_BEEF, 0xFFFF_FFFF, 0x0102_0304, 0x8000_0001] {
        let bytes = mem.conv32to8(v);
        assert_eq!(mem.conv8to32(bytes), v);
    }
}

#[test]
fn pack_unpack_round_trip_big_endian() {
    let mut mem = Memory::new();
    mem.make_big_endian();
    for &v in &[0u32, 1, 0xDEAD_BEEF, 0xFFFF_FFFF, 0x0102_0304, 0x8000_0001] {
        let bytes = mem.conv32to8(v);
        assert_eq!(mem.conv8to32(bytes), v);
    }
}

#[test]
fn pack_byte_order() {
    let mut mem = Memory::new();
    assert_eq!(mem.conv32to8(0x0102_0304), vec![0x04, 0x03, 0x02, 0x01]);
    mem.make_big_endian();
    assert_eq!(mem.conv32to8(0x0102_0304), vec![0x01, 0x02, 0x03, 0x04]);
}

#[test]
fn read_write_bytes_and_words() {
    let mut mem = Memory::new();
    mem.load_from_bytes(vec![0; 16]);
    assert_eq!(mem.get_size(), 16);
    assert_eq!(mem.write_32bit(0, 0x2525_2525), Ok(()));
    assert_eq!(mem.read_32bit(0), Ok(0x2525_2525));
    assert_eq!(mem.write_8bit(2, 0x20), Ok(()));
    assert_eq!(mem.write_8bit(3, 0x40), Ok(()));
    // Little-endian: byte 2 lands in bits 23:16, byte 3 in bits 31:24.
    assert_eq!(mem.read_32bit(0), Ok(0x4020_2525));
    // The same bytes reread in big-endian order give the mirrored word.
    mem.make_big_endian();
    assert_eq!(mem.read_32bit(0), Ok(0x2525_2040));
}

#[test]
fn word_access_matches_four_byte_accesses() {
    let mut mem = Memory::new();
    mem.load_from_bytes(vec![0; 8]);
    assert_eq!(mem.write_32bit(0, 0x0102_0304), Ok(()));
    assert_eq!(mem.read_8bit(0), Ok(0x04));
    assert_eq!(mem.read_8bit(1), Ok(0x03));
    assert_eq!(mem.read_8bit(2), Ok(0x02));
    assert_eq!(mem.read_8bit(3), Ok(0x01));
}

#[test]
fn out_of_range_access_is_a_bounds_fault() {
    let mut mem = Memory::new();
    mem.load_from_bytes(vec![0; 4]);
    assert_eq!(mem.read_8bit(4), Err(Fault::MemoryBoundsFault(4)));
    assert_eq!(mem.write_8bit(4, 1), Err(Fault::MemoryBoundsFault(4)));
    assert_eq!(mem.read_32bit(2), Err(Fault::MemoryBoundsFault(4)));
    assert_eq!(mem.write_32bit(2, 0), Err(Fault::MemoryBoundsFault(4)));
    assert_eq!(
        mem.read_8bit(u64::MAX),
        Err(Fault::MemoryBoundsFault(u64::MAX))
    );
}

#[test]
fn peripheral_window_is_checked_before_memory() {
    let mut mem = Memory::new();
    assert!(mem.check_peripheral(PERIPHERAL_BASE));
    assert!(mem.check_peripheral(PERIPHERAL_BASE + 2));
    assert!(!mem.check_peripheral(PERIPHERAL_BASE - 1));
    // In-window addresses work even though raw memory is empty.
    assert_eq!(mem.write_8bit(PERIPHERAL_BASE + 1, 0x41), Ok(()));
    assert_eq!(mem.uart.ext_read_tx_fifo(), 0x41);
}

#[test]
fn lb_sign_extends_lbu_does_not() {
    let mut regs = vec![0u32; 32];
    let mut pc: u32 = 0;
    let mut mem = Memory::new();
    mem.load_from_bytes(vec![0x80, 0x7F, 0, 0]);
    // LB x3, 0(x1) with x1 = 0.
    let lb = ITypeInst::new(0x00008183);
    assert!(lb.execute(&mut regs, &mut pc, &mut mem).is_ok());
    assert_eq!(regs[3], 0xFFFF_FF80);
    // LBU x3, 0(x1).
    let lbu = ITypeInst::new(0x0000C183);
    assert!(lbu.execute(&mut regs, &mut pc, &mut mem).is_ok());
    assert_eq!(regs[3], 0x80);
}

#[test]
fn lh_lhu_and_lw() {
    let mut regs = vec![0u32; 32];
    let mut pc: u32 = 0;
    let mut mem = Memory::new();
    mem.load_from_bytes(vec![0x34, 0x82, 0x01, 0x00]);
    // LH x3, 0(x1): little-endian halfword 0x8234, sign-extended.
    let lh = ITypeInst::new(0x00009183);
    assert!(lh.execute(&mut regs, &mut pc, &mut mem).is_ok());
    assert_eq!(regs[3], 0xFFFF_8234);
    // LHU x3, 0(x1): zero-extended.
    let lhu = ITypeInst::new(0x0000D183);
    assert!(lhu.execute(&mut regs, &mut pc, &mut mem).is_ok());
    assert_eq!(regs[3], 0x8234);
    // LW x3, 0(x1): the whole word.
    let lw = ITypeInst::new(0x0000A183);
    assert!(lw.execute(&mut regs, &mut pc, &mut mem).is_ok());
    assert_eq!(regs[3], 0x0001_8234);
}

#[test]
fn load_from_a_faulting_address_propagates() {
    let mut regs = vec![0u32; 32];
    let mut pc: u32 = 0;
    let mut mem = Memory::new();
    // Empty memory: LW x3, 0(x1) faults and pc does not retire.
    let lw = ITypeInst::new(0x0000A183);
    assert_eq!(
        lw.execute(&mut regs, &mut pc, &mut mem),
        Err(Fault::MemoryBoundsFault(0))
    );
    assert_eq!(pc, 0);
    assert_eq!(regs[3], 0);
}

#[test]
fn sb_sh_sw_store_the_low_bits() {
    let mut regs = vec![0u32; 32];
    let mut pc: u32 = 0;
    let mut mem = Memory::new();
    mem.load_from_bytes(vec![0xFF; 8]);
    regs[2] = 0x1122_3344;
    // SB x2, 0(x1): only the low byte.
    let sb = STypeInst::new(0x00208023);
    assert!(sb.execute(&mut regs, &mut pc, &mut mem).is_ok());
    assert_eq!(mem.read_8bit(0), Ok(0x44));
    assert_eq!(mem.read_8bit(1), Ok(0xFF));
    // SH x2, 4(x1): the low halfword.
    let sh = STypeInst::new(0x00209223);
    assert!(sh.execute(&mut regs, &mut pc, &mut mem).is_ok());
    assert_eq!(mem.read_8bit(4), Ok(0x44));
    assert_eq!(mem.read_8bit(5), Ok(0x33));
    assert_eq!(mem.read_8bit(6), Ok(0xFF));
    // SW x2, 0(x1): the whole word.
    let sw = STypeInst::new(0x0020A023);
    assert!(sw.execute(&mut regs, &mut pc, &mut mem).is_ok());
    assert_eq!(mem.read_32bit(0), Ok(0x1122_3344));
}

#[test]
fn store_to_a_faulting_address_propagates() {
    let mut regs = vec![0u32; 32];
    let mut pc: u32 = 7;
    let mut mem = Memory::new();
    let sw = STypeInst::new(0x0020A023);
    assert_eq!(
        sw.execute(&mut regs, &mut pc, &mut mem),
        Err(Fault::MemoryBoundsFault(0))
    );
    assert_eq!(pc, 7);
}
