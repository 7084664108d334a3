//! Control-flow tests: branches, jumps, the upper-immediate instructions,
//! and retirement of the program counter.

use riscv_vm::cpu::Cpu;
use riscv_vm::idecoder::{BTypeInst, ITypeInst, JTypeInst, UTypeInst};
use riscv_vm::memory::Memory;

fn fresh() -> (Vec<u32>, u32, Memory) {
    (vec![0u32; 32], 0u32, Memory::new())
}

#[test]
fn beq_taken_and_not_taken() {
    // BEQ x1, x2, +8
    let beq = BTypeInst::new(0x00208463);
    let (mut regs, mut pc, mut mem) = fresh();
    regs[1] = 7;
    regs[2] = 7;
    pc = 100;
    assert!(beq.execute(&mut regs, &mut pc, &mut mem).is_ok());
    assert_eq!(pc, 108);
    let (mut regs, mut pc, mut mem) = fresh();
    regs[1] = 7;
    regs[2] = 8;
    pc = 100;
    assert!(beq.execute(&mut regs, &mut pc, &mut mem).is_ok());
    assert_eq!(pc, 104);
}

#[test]
fn branch_backwards() {
    // BEQ x1, x2, -4 with equal registers moves the pc back.
    let beq = BTypeInst::new(0xFE208EE3);
    let (mut regs, mut pc, mut mem) = fresh();
    pc = 100;
    assert!(beq.execute(&mut regs, &mut pc, &mut mem).is_ok());
    assert_eq!(pc, 96);
}

#[test]
fn blt_is_signed_bltu_is_not() {
    // BLT x1, x2, +8 with x1 = -1 signed, x2 = 1: taken.
    let blt = BTypeInst::new(0x0020C463);
    let (mut regs, mut pc, mut mem) = fresh();
    regs[1] = 0xFFFF_FFFF;
    regs[2] = 1;
    assert!(blt.execute(&mut regs, &mut pc, &mut mem).is_ok());
    assert_eq!(pc, 8);
    // BLTU with the same bit patterns: not taken.
    let bltu = BTypeInst::new(0x0020E463);
    let (mut regs, mut pc, mut mem) = fresh();
    regs[1] = 0xFFFF_FFFF;
    regs[2] = 1;
    assert!(bltu.execute(&mut regs, &mut pc, &mut mem).is_ok());
    assert_eq!(pc, 4);
}

#[test]
fn bne_bge_bgeu() {
    // BNE x1, x2, +8
    let bne = BTypeInst::new(0x00209463);
    let (mut regs, mut pc, mut mem) = fresh();
    regs[1] = 1;
    assert!(bne.execute(&mut regs, &mut pc, &mut mem).is_ok());
    assert_eq!(pc, 8);
    // BGE x1, x2, +8 with x1 = -1 signed, x2 = 1: not taken.
    let bge = BTypeInst::new(0x0020D463);
    let (mut regs, mut pc, mut mem) = fresh();
    regs[1] = 0xFFFF_FFFF;
    regs[2] = 1;
    assert!(bge.execute(&mut regs, &mut pc, &mut mem).is_ok());
    assert_eq!(pc, 4);
    // BGEU with the same bit patterns: taken.
    let bgeu = BTypeInst::new(0x0020F463);
    let (mut regs, mut pc, mut mem) = fresh();
    regs[1] = 0xFFFF_FFFF;
    regs[2] = 1;
    assert!(bgeu.execute(&mut regs, &mut pc, &mut mem).is_ok());
    assert_eq!(pc, 8);
}

#[test]
fn jal_links_and_jumps() {
    // JAL x1, +8
    let jal = JTypeInst::new(0x008000EF);
    let (mut regs, mut pc, mut mem) = fresh();
    pc = 100;
    assert!(jal.execute(&mut regs, &mut pc, &mut mem).is_ok());
    assert_eq!(regs[1], 104);
    assert_eq!(pc, 108);
}

#[test]
fn jalr_clears_bit_zero_of_the_target() {
    // JALR x1, 0(x2) with x2 odd: the target's bit 0 is cleared.
    let jalr = ITypeInst::new(0x000100E7);
    let (mut regs, mut pc, mut mem) = fresh();
    regs[2] = 0x103;
    pc = 100;
    assert!(jalr.execute(&mut regs, &mut pc, &mut mem).is_ok());
    assert_eq!(regs[1], 104);
    assert_eq!(pc, 0x102);
}

#[test]
fn lui_and_auipc() {
    // LUI x1, 0x12345
    let lui = UTypeInst::new(0x123450B7);
    let (mut regs, mut pc, mut mem) = fresh();
    assert!(lui.execute(&mut regs, &mut pc, &mut mem).is_ok());
    assert_eq!(regs[1], 0x1234_5000);
    assert_eq!(pc, 4);
    // AUIPC x1, 0x12345 at pc 0x1000.
    let auipc = UTypeInst::new(0x12345097);
    let (mut regs, mut pc, mut mem) = fresh();
    pc = 0x1000;
    assert!(auipc.execute(&mut regs, &mut pc, &mut mem).is_ok());
    assert_eq!(regs[1], 0x1234_6000);
    assert_eq!(pc, 0x1004);
}

#[test]
fn step_runs_a_small_program() {
    // ADDI x1, x0, 5; ADDI x2, x0, 10; ADD x3, x1, x2.
    let mut cpu = Cpu::new();
    let lines = vec!["00500093".to_string(), "00A00113".to_string(), "002081B3".to_string()];
    assert_eq!(cpu.mem.load_from_hex_lines(&lines), Ok(()));
    assert!(cpu.step().is_ok());
    assert!(cpu.step().is_ok());
    assert!(cpu.step().is_ok());
    assert_eq!(cpu.regs[1], 5);
    assert_eq!(cpu.regs[2], 10);
    assert_eq!(cpu.regs[3], 15);
    assert_eq!(cpu.pc, 12);
}

#[test]
fn step_runs_the_same_program_big_endian() {
    // The loader packs and the fetch unpacks in the same byte order, so a
    // big-endian machine runs the same program to the same result.
    let mut cpu = Cpu::new();
    cpu.mem.make_big_endian();
    let lines = vec!["00500093".to_string(), "00A00113".to_string(), "002081B3".to_string()];
    assert_eq!(cpu.mem.load_from_hex_lines(&lines), Ok(()));
    // The bytes in memory are mirrored relative to little-endian packing.
    assert_eq!(cpu.mem.read_8bit(0), Ok(0x00));
    assert_eq!(cpu.mem.read_8bit(3), Ok(0x93));
    for _ in 0..3 {
        assert!(cpu.step().is_ok());
    }
    assert_eq!(cpu.regs[3], 15);
}

#[test]
fn step_takes_a_branch() {
    // BEQ x0, x0, +8 at address 0: the pc skips a word.
    let mut cpu = Cpu::new();
    let lines = vec!["00000463".to_string(), "00000000".to_string(), "00000000".to_string()];
    assert_eq!(cpu.mem.load_from_hex_lines(&lines), Ok(()));
    assert!(cpu.step().is_ok());
    assert_eq!(cpu.pc, 8);
}
