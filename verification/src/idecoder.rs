//! Instruction decoding and per-format execution semantics for the RV32I
//! base integer set.
//!
//! `opcode_to_InstType` classifies a 32-bit word by its low 7 bits into one
//! of six formats (or `Invalid`); one struct per format extracts the fields,
//! with the immediate reconstructed from its scattered encoding bits and
//! sign-extended. Each format's `execute` applies the instruction to the
//! register file, program counter and memory bus, with all arithmetic
//! wrapping modulo 2^32.
//!
//! Left out on purpose (bare-metal scope): FENCE, ECALL, EBREAK and the CSR
//! instructions; their opcodes classify as `Invalid`.

use crate::memory::{
    mem_read16, mem_read32, mem_read8, mem_write16, mem_write32, mem_write8, Fault, MemModel,
    Memory,
};
use vstd::prelude::*;

verus! {

// ---------------------------------------------------------------------------
// Sign extension and immediate reconstruction
// ---------------------------------------------------------------------------
/// A 12-bit value sign-extended to 32 bits.
pub open spec fn sext12(x: u32) -> u32
    recommends
        x < 0x1000,
{
    if x & 0x800 != 0 {
        x | 0xFFFF_F000
    } else {
        x
    }
}

/// A 13-bit value sign-extended to 32 bits.
pub open spec fn sext13(x: u32) -> u32
    recommends
        x < 0x2000,
{
    if x & 0x1000 != 0 {
        x | 0xFFFF_E000
    } else {
        x
    }
}

/// A 21-bit value sign-extended to 32 bits.
pub open spec fn sext21(x: u32) -> u32
    recommends
        x < 0x20_0000,
{
    if x & 0x10_0000 != 0 {
        x | 0xFFE0_0000
    } else {
        x
    }
}

/// A byte sign-extended to 32 bits.
pub open spec fn sext8to32(b: u8) -> u32 {
    if b & 0x80 != 0 {
        (b as u32) | 0xFFFF_FF00
    } else {
        b as u32
    }
}

/// A halfword sign-extended to 32 bits.
pub open spec fn sext16to32(h: u16) -> u32 {
    if h & 0x8000 != 0 {
        (h as u32) | 0xFFFF_0000
    } else {
        h as u32
    }
}

/// I-format immediate: bits [31:20], sign-extended.
pub open spec fn spec_i_imm(inst: u32) -> u32 {
    sext12((inst >> 20) & 0xFFF)
}

/// S-format immediate: bits [31:25] over bits [11:7], sign-extended.
pub open spec fn spec_s_imm(inst: u32) -> u32 {
    sext12((((inst >> 25) & 0x7F) << 5) | ((inst >> 7) & 0x1F))
}

/// B-format immediate: bit 31 is imm[12], bit 7 is imm[11], bits [30:25]
/// are imm[10:5], bits [11:8] are imm[4:1], imm[0] is forced to zero;
/// sign-extended.
pub open spec fn spec_b_imm(inst: u32) -> u32 {
    sext13(
        (((inst >> 31) & 0x1) << 12) | (((inst >> 7) & 0x1) << 11) | (((inst >> 25) & 0x3F) << 5)
            | (((inst >> 8) & 0xF) << 1),
    )
}

/// U-format immediate: bits [31:12] kept in place, low 12 bits zero.
pub open spec fn spec_u_imm(inst: u32) -> u32 {
    inst & 0xFFFF_F000
}

/// J-format immediate: bit 31 is imm[20], bits [19:12] stay in place,
/// bit 20 is imm[11], bits [30:21] are imm[10:1], imm[0] is forced to
/// zero; sign-extended.
pub open spec fn spec_j_imm(inst: u32) -> u32 {
    sext21(
        (((inst >> 31) & 0x1) << 20) | (((inst >> 12) & 0xFF) << 12) | (((inst >> 20) & 0x1) << 11)
            | (((inst >> 21) & 0x3FF) << 1),
    )
}

// ---------------------------------------------------------------------------
// Format classification
// ---------------------------------------------------------------------------
/// The six RV32I instruction formats, and `Invalid` for every unmapped
/// opcode.
#[derive(Clone, Copy, Debug, PartialEq, Eq, Structural)]
pub enum InstType {
    RType,
    IType,
    SType,
    BType,
    UType,
    JType,
    Invalid,
}

/// The fixed opcode table: 0x33 is R; 0x03, 0x13, 0x67 are I; 0x23 is S;
/// 0x63 is B; 0x17, 0x37 are U; 0x6F is J; everything else is `Invalid`.
pub open spec fn spec_classify(inst: u32) -> InstType {
    let opcode = inst & 0x7F;
    if opcode == 0x33 {
        InstType::RType
    } else if opcode == 0x03 || opcode == 0x13 || opcode == 0x67 {
        InstType::IType
    } else if opcode == 0x23 {
        InstType::SType
    } else if opcode == 0x63 {
        InstType::BType
    } else if opcode == 0x17 || opcode == 0x37 {
        InstType::UType
    } else if opcode == 0x6F {
        InstType::JType
    } else {
        InstType::Invalid
    }
}

/// Classify a 32-bit instruction word by its opcode field (the low 7 bits).
#[allow(non_snake_case)]
pub fn opcode_to_InstType(inst: u32) -> (r: InstType)
    ensures
        r == spec_classify(inst),
{
    let opcode: u32 = inst & 0x7F;
    match opcode {
        0x33 => InstType::RType,
        0x03 | 0x13 | 0x67 => InstType::IType,
        0x23 => InstType::SType,
        0x63 => InstType::BType,
        0x17 | 0x37 => InstType::UType,
        0x6F => InstType::JType,
        _ => InstType::Invalid,
    }
}

/// Decoder totality: every word classifies to exactly one format, each
/// format comes from exactly the opcodes of the fixed table, and a word
/// classifies to `Invalid` exactly when its opcode field is unmapped.
pub proof fn lemma_classify_total(inst: u32)
    ensures
        spec_classify(inst) == InstType::RType <==> inst & 0x7F == 0x33,
        spec_classify(inst) == InstType::IType <==> (inst & 0x7F == 0x03 || inst & 0x7F == 0x13
            || inst & 0x7F == 0x67),
        spec_classify(inst) == InstType::SType <==> inst & 0x7F == 0x23,
        spec_classify(inst) == InstType::BType <==> inst & 0x7F == 0x63,
        spec_classify(inst) == InstType::UType <==> (inst & 0x7F == 0x17 || inst & 0x7F == 0x37),
        spec_classify(inst) == InstType::JType <==> inst & 0x7F == 0x6F,
        spec_classify(inst) == InstType::Invalid <==> !(inst & 0x7F == 0x33 || inst & 0x7F == 0x03
            || inst & 0x7F == 0x13 || inst & 0x7F == 0x67 || inst & 0x7F == 0x23 || inst & 0x7F
            == 0x63 || inst & 0x7F == 0x17 || inst & 0x7F == 0x37 || inst & 0x7F == 0x6F),
{
}

// ---------------------------------------------------------------------------
// Opcode families and function selectors
// ---------------------------------------------------------------------------
/// The single R-format opcode family: register-register ALU, opcode 0x33.
#[derive(Clone, Copy, Debug, PartialEq, Eq, Structural)]
pub enum RTypeOpcodes {
    Alu,
}

impl RTypeOpcodes {
    /// The opcode byte of this family in the classification table.
    pub fn opcode_byte(&self) -> (r: u8)
        ensures
            r == 0x33,
    {
        0x33
    }
}

/// The three I-format opcode families.
#[derive(Clone, Copy, Debug, PartialEq, Eq, Structural)]
pub enum ITypeOpcodes {
    /// Loads, opcode 0x03.
    Ld,
    /// ALU with immediate, opcode 0x13.
    Alu,
    /// Jump and link register, opcode 0x67.
    Jalr,
}

impl ITypeOpcodes {
    /// The I-format family of an opcode byte, if it has one.
    pub open spec fn spec_from_opcode(op: u8) -> Option<ITypeOpcodes> {
        if op == 0x03 {
            Some(ITypeOpcodes::Ld)
        } else if op == 0x13 {
            Some(ITypeOpcodes::Alu)
        } else if op == 0x67 {
            Some(ITypeOpcodes::Jalr)
        } else {
            None
        }
    }

    /// Executable form of [`Self::spec_from_opcode`].
    pub fn from_opcode(op: u8) -> (r: Option<ITypeOpcodes>)
        ensures
            r == Self::spec_from_opcode(op),
    {
        match op {
            0x03 => Some(ITypeOpcodes::Ld),
            0x13 => Some(ITypeOpcodes::Alu),
            0x67 => Some(ITypeOpcodes::Jalr),
            _ => None,
        }
    }

    /// The opcode byte of this family in the classification table.
    pub fn opcode_byte(&self) -> (r: u8)
        ensures
            Self::spec_from_opcode(r) == Some(*self),
    {
        match self {
            ITypeOpcodes::Ld => 0x03,
            ITypeOpcodes::Alu => 0x13,
            ITypeOpcodes::Jalr => 0x67,
        }
    }
}

/// The single S-format opcode family: stores, opcode 0x23.
#[derive(Clone, Copy, Debug, PartialEq, Eq, Structural)]
pub enum STypeOpcodes {
    Store,
}

impl STypeOpcodes {
    /// The opcode byte of this family in the classification table.
    pub fn opcode_byte(&self) -> (r: u8)
        ensures
            r == 0x23,
    {
        0x23
    }
}

/// The single B-format opcode family: conditional branches, opcode 0x63.
#[derive(Clone, Copy, Debug, PartialEq, Eq, Structural)]
pub enum BTypeOpcodes {
    Branch,
}

impl BTypeOpcodes {
    /// The opcode byte of this family in the classification table.
    pub fn opcode_byte(&self) -> (r: u8)
        ensures
            r == 0x63,
    {
        0x63
    }
}

/// The two U-format opcodes.
#[derive(Clone, Copy, Debug, PartialEq, Eq, Structural)]
pub enum UTypeOpcodes {
    /// Add upper immediate to pc, opcode 0x17.
    Auipc,
    /// Load upper immediate, opcode 0x37.
    Lui,
}

impl UTypeOpcodes {
    /// The U-format operation of an opcode byte, if it has one.
    pub open spec fn spec_from_opcode(op: u8) -> Option<UTypeOpcodes> {
        if op == 0x17 {
            Some(UTypeOpcodes::Auipc)
        } else if op == 0x37 {
            Some(UTypeOpcodes::Lui)
        } else {
            None
        }
    }

    /// Executable form of [`Self::spec_from_opcode`].
    pub fn from_opcode(op: u8) -> (r: Option<UTypeOpcodes>)
        ensures
            r == Self::spec_from_opcode(op),
    {
        match op {
            0x17 => Some(UTypeOpcodes::Auipc),
            0x37 => Some(UTypeOpcodes::Lui),
            _ => None,
        }
    }

    /// The opcode byte of this operation in the classification table.
    pub fn opcode_byte(&self) -> (r: u8)
        ensures
            Self::spec_from_opcode(r) == Some(*self),
    {
        match self {
            UTypeOpcodes::Auipc => 0x17,
            UTypeOpcodes::Lui => 0x37,
        }
    }
}

/// The single J-format opcode family: jump and link, opcode 0x6F.
#[derive(Clone, Copy, Debug, PartialEq, Eq, Structural)]
pub enum JTypeOpcodes {
    Jal,
}

impl JTypeOpcodes {
    /// The opcode byte of this family in the classification table.
    pub fn opcode_byte(&self) -> (r: u8)
        ensures
            r == 0x6F,
    {
        0x6F
    }
}

/// R-format ALU operation, selected by funct3 (funct7 then splits
/// add/subtract and the two right shifts).
#[derive(Clone, Copy, Debug, PartialEq, Eq, Structural)]
pub enum RTypeALUFuncSel {
    AddSub,
    Sll,
    Slt,
    Sltu,
    Xor,
    SrlSra,
    Or,
    And,
}

impl RTypeALUFuncSel {
    /// The operation selected by a funct3 value. All eight values are
    /// mapped, so the selector is total.
    pub open spec fn spec_from_funct3(f: u8) -> RTypeALUFuncSel {
        if f == 0 {
            RTypeALUFuncSel::AddSub
        } else if f == 1 {
            RTypeALUFuncSel::Sll
        } else if f == 2 {
            RTypeALUFuncSel::Slt
        } else if f == 3 {
            RTypeALUFuncSel::Sltu
        } else if f == 4 {
            RTypeALUFuncSel::Xor
        } else if f == 5 {
            RTypeALUFuncSel::SrlSra
        } else if f == 6 {
            RTypeALUFuncSel::Or
        } else {
            RTypeALUFuncSel::And
        }
    }

    /// Executable form of [`Self::spec_from_funct3`].
    pub fn from_funct3(f: u8) -> (r: RTypeALUFuncSel)
        ensures
            r == Self::spec_from_funct3(f),
    {
        match f {
            0 => RTypeALUFuncSel::AddSub,
            1 => RTypeALUFuncSel::Sll,
            2 => RTypeALUFuncSel::Slt,
            3 => RTypeALUFuncSel::Sltu,
            4 => RTypeALUFuncSel::Xor,
            5 => RTypeALUFuncSel::SrlSra,
            6 => RTypeALUFuncSel::Or,
            _ => RTypeALUFuncSel::And,
        }
    }
}

/// I-format load width and extension, selected by funct3.
#[derive(Clone, Copy, Debug, PartialEq, Eq, Structural)]
pub enum ITypeLoadFuncSel {
    Lb,
    Lh,
    Lw,
    Lbu,
    Lhu,
}

impl ITypeLoadFuncSel {
    /// The load selected by a funct3 value, if any.
    pub open spec fn spec_from_funct3(f: u8) -> Option<ITypeLoadFuncSel> {
        if f == 0 {
            Some(ITypeLoadFuncSel::Lb)
        } else if f == 1 {
            Some(ITypeLoadFuncSel::Lh)
        } else if f == 2 {
            Some(ITypeLoadFuncSel::Lw)
        } else if f == 4 {
            Some(ITypeLoadFuncSel::Lbu)
        } else if f == 5 {
            Some(ITypeLoadFuncSel::Lhu)
        } else {
            None
        }
    }

    /// Executable form of [`Self::spec_from_funct3`].
    pub fn from_funct3(f: u8) -> (r: Option<ITypeLoadFuncSel>)
        ensures
            r == Self::spec_from_funct3(f),
    {
        match f {
            0 => Some(ITypeLoadFuncSel::Lb),
            1 => Some(ITypeLoadFuncSel::Lh),
            2 => Some(ITypeLoadFuncSel::Lw),
            4 => Some(ITypeLoadFuncSel::Lbu),
            5 => Some(ITypeLoadFuncSel::Lhu),
            _ => None,
        }
    }
}

/// I-format ALU-with-immediate operation, selected by funct3.
#[derive(Clone, Copy, Debug, PartialEq, Eq, Structural)]
pub enum ITypeALUFuncSel {
    Addi,
    Slti,
    Sltiu,
    Xori,
    Ori,
    Andi,
}

impl ITypeALUFuncSel {
    /// The operation selected by a funct3 value, if any.
    pub open spec fn spec_from_funct3(f: u8) -> Option<ITypeALUFuncSel> {
        if f == 0 {
            Some(ITypeALUFuncSel::Addi)
        } else if f == 2 {
            Some(ITypeALUFuncSel::Slti)
        } else if f == 3 {
            Some(ITypeALUFuncSel::Sltiu)
        } else if f == 4 {
            Some(ITypeALUFuncSel::Xori)
        } else if f == 6 {
            Some(ITypeALUFuncSel::Ori)
        } else if f == 7 {
            Some(ITypeALUFuncSel::Andi)
        } else {
            None
        }
    }

    /// Executable form of [`Self::spec_from_funct3`].
    pub fn from_funct3(f: u8) -> (r: Option<ITypeALUFuncSel>)
        ensures
            r == Self::spec_from_funct3(f),
    {
        match f {
            0 => Some(ITypeALUFuncSel::Addi),
            2 => Some(ITypeALUFuncSel::Slti),
            3 => Some(ITypeALUFuncSel::Sltiu),
            4 => Some(ITypeALUFuncSel::Xori),
            6 => Some(ITypeALUFuncSel::Ori),
            7 => Some(ITypeALUFuncSel::Andi),
            _ => None,
        }
    }
}

/// S-format store width, selected by funct3.
#[derive(Clone, Copy, Debug, PartialEq, Eq, Structural)]
pub enum STypeStoreFuncSel {
    Sb,
    Sh,
    Sw,
}

impl STypeStoreFuncSel {
    /// The store selected by a funct3 value, if any.
    pub open spec fn spec_from_funct3(f: u8) -> Option<STypeStoreFuncSel> {
        if f == 0 {
            Some(STypeStoreFuncSel::Sb)
        } else if f == 1 {
            Some(STypeStoreFuncSel::Sh)
        } else if f == 2 {
            Some(STypeStoreFuncSel::Sw)
        } else {
            None
        }
    }

    /// Executable form of [`Self::spec_from_funct3`].
    pub fn from_funct3(f: u8) -> (r: Option<STypeStoreFuncSel>)
        ensures
            r == Self::spec_from_funct3(f),
    {
        match f {
            0 => Some(STypeStoreFuncSel::Sb),
            1 => Some(STypeStoreFuncSel::Sh),
            2 => Some(STypeStoreFuncSel::Sw),
            _ => None,
        }
    }
}

/// B-format branch condition, selected by funct3.
#[derive(Clone, Copy, Debug, PartialEq, Eq, Structural)]
pub enum BTypeBranchFuncSel {
    Beq,
    Bne,
    Blt,
    Bge,
    Bltu,
    Bgeu,
}

impl BTypeBranchFuncSel {
    /// The condition selected by a funct3 value, if any.
    pub open spec fn spec_from_funct3(f: u8) -> Option<BTypeBranchFuncSel> {
        if f == 0 {
            Some(BTypeBranchFuncSel::Beq)
        } else if f == 1 {
            Some(BTypeBranchFuncSel::Bne)
        } else if f == 4 {
            Some(BTypeBranchFuncSel::Blt)
        } else if f == 5 {
            Some(BTypeBranchFuncSel::Bge)
        } else if f == 6 {
            Some(BTypeBranchFuncSel::Bltu)
        } else if f == 7 {
            Some(BTypeBranchFuncSel::Bgeu)
        } else {
            None
        }
    }

    /// Executable form of [`Self::spec_from_funct3`].
    pub fn from_funct3(f: u8) -> (r: Option<BTypeBranchFuncSel>)
        ensures
            r == Self::spec_from_funct3(f),
    {
        match f {
            0 => Some(BTypeBranchFuncSel::Beq),
            1 => Some(BTypeBranchFuncSel::Bne),
            4 => Some(BTypeBranchFuncSel::Blt),
            5 => Some(BTypeBranchFuncSel::Bge),
            6 => Some(BTypeBranchFuncSel::Bltu),
            7 => Some(BTypeBranchFuncSel::Bgeu),
            _ => None,
        }
    }
}

// ---------------------------------------------------------------------------
// ALU primitives (32-bit wrapping two's complement)
// ---------------------------------------------------------------------------
/// Signed less-than on the two's-complement reading of the operands.
pub open spec fn spec_slt(a: u32, b: u32) -> bool {
    (a as i32) < (b as i32)
}

/// Logical left shift by the low 5 bits of the second operand.
pub open spec fn spec_sll(a: u32, b: u32) -> u32 {
    a << (b & 0x1F)
}

/// Logical right shift by the low 5 bits of the second operand.
pub open spec fn spec_srl(a: u32, b: u32) -> u32 {
    a >> (b & 0x1F)
}

/// Arithmetic right shift by the low 5 bits of the second operand.
pub open spec fn spec_sra(a: u32, b: u32) -> u32 {
    ((a as i32) >> (b & 0x1F)) as u32
}

/// The R-format ALU result: funct3 picks the operation, a non-zero funct7
/// turns add into subtract and the logical right shift into the arithmetic
/// one.
pub open spec fn spec_r_alu(sel: RTypeALUFuncSel, func7: u8, a: u32, b: u32) -> u32 {
    match sel {
        RTypeALUFuncSel::AddSub => if func7 != 0 {
            a.wrapping_sub(b)
        } else {
            a.wrapping_add(b)
        },
        RTypeALUFuncSel::Sll => spec_sll(a, b),
        RTypeALUFuncSel::Slt => if spec_slt(a, b) {
            1
        } else {
            0
        },
        RTypeALUFuncSel::Sltu => if a < b {
            1
        } else {
            0
        },
        RTypeALUFuncSel::Xor => a ^ b,
        RTypeALUFuncSel::SrlSra => if func7 != 0 {
            spec_sra(a, b)
        } else {
            spec_srl(a, b)
        },
        RTypeALUFuncSel::Or => a | b,
        RTypeALUFuncSel::And => a & b,
    }
}

// ---------------------------------------------------------------------------
// Register file writes
// ---------------------------------------------------------------------------
/// A register-file write. Register 0 is hard-wired to zero: a write to it
/// is discarded.
pub open spec fn spec_write_reg(regs: Seq<u32>, rd: u8, val: u32) -> Seq<u32>
    recommends
        regs.len() == 32,
        rd < 32,
{
    if rd == 0 {
        regs
    } else {
        regs.update(rd as int, val)
    }
}

/// Executable form of [`spec_write_reg`].
fn write_reg(regs: &mut Vec<u32>, rd: u8, val: u32)
    requires
        old(regs)@.len() == 32,
        rd < 32,
    ensures
        final(regs)@ == spec_write_reg(old(regs)@, rd, val),
{
    if rd != 0 {
        regs.set(rd as usize, val);
    }
}

// ---------------------------------------------------------------------------
// R-format: register-register ALU
// ---------------------------------------------------------------------------
/// A decoded R-format instruction.
#[derive(Clone, Copy, Debug, PartialEq, Eq, Structural)]
pub struct RTypeInst {
    pub func7: u8,
    pub rs2: u8,
    pub rs1: u8,
    pub func3: u8,
    pub rd: u8,
    pub opcode: u8,
}

/// The fields of an R-format word: funct7 [31:25], rs2 [24:20], rs1
/// [19:15], funct3 [14:12], rd [11:7], opcode [6:0].
pub open spec fn spec_decode_r(inst: u32) -> RTypeInst {
    RTypeInst {
        func7: ((inst >> 25) & 0x7F) as u8,
        rs2: ((inst >> 20) & 0x1F) as u8,
        rs1: ((inst >> 15) & 0x1F) as u8,
        func3: ((inst >> 12) & 0x7) as u8,
        rd: ((inst >> 7) & 0x1F) as u8,
        opcode: (inst & 0x7F) as u8,
    }
}

proof fn lemma_decode_r_bounds(inst: u32)
    by (bit_vector)
    ensures
        (((inst >> 25) & 0x7F) as u8) < 128,
        (((inst >> 20) & 0x1F) as u8) < 32,
        (((inst >> 15) & 0x1F) as u8) < 32,
        (((inst >> 12) & 0x7) as u8) < 8,
        (((inst >> 7) & 0x1F) as u8) < 32,
        ((inst & 0x7F) as u8) < 128,
{
}

/// What execution needs of the fields: every 5-bit index below 32, funct3
/// below 8.
pub open spec fn r_fields_bounded(i: RTypeInst) -> bool {
    &&& i.func7 < 128
    &&& i.rs2 < 32
    &&& i.rs1 < 32
    &&& i.func3 < 8
    &&& i.rd < 32
    &&& i.opcode < 128
}

/// The R-format step: rd receives the ALU result of rs1 and rs2, the
/// program counter retires to the next word.
pub open spec fn spec_exec_r(i: RTypeInst, regs: Seq<u32>, pc: u32) -> (Seq<u32>, u32)
    recommends
        regs.len() == 32,
        r_fields_bounded(i),
{
    let a = regs[i.rs1 as int];
    let b = regs[i.rs2 as int];
    let sel = RTypeALUFuncSel::spec_from_funct3(i.func3);
    (spec_write_reg(regs, i.rd, spec_r_alu(sel, i.func7, a, b)), pc.wrapping_add(4))
}

impl RTypeInst {
    pub open spec fn wf(self) -> bool {
        r_fields_bounded(self)
    }

    /// Extract the R-format fields of an instruction word.
    pub fn new(inst: u32) -> (r: RTypeInst)
        ensures
            r == spec_decode_r(inst),
            r.wf(),
    {
        proof {
            lemma_decode_r_bounds(inst);
        }
        RTypeInst {
            func7: ((inst >> 25) & 0x7F) as u8,
            rs2: ((inst >> 20) & 0x1F) as u8,
            rs1: ((inst >> 15) & 0x1F) as u8,
            func3: ((inst >> 12) & 0x7) as u8,
            rd: ((inst >> 7) & 0x1F) as u8,
            opcode: (inst & 0x7F) as u8,
        }
    }

    /// Apply the instruction: see [`spec_exec_r`]. Never faults and never
    /// touches memory; the memory bus parameter keeps the execution
    /// interface uniform across formats.
    pub fn execute(&self, regs: &mut Vec<u32>, pc: &mut u32, mem: &mut Memory) -> (r: Result<
        (),
        Fault,
    >)
        requires
            self.wf(),
            old(regs)@.len() == 32,
            old(mem).wf(),
        ensures
            final(regs)@ == spec_exec_r(*self, old(regs)@, *old(pc)).0,
            *final(pc) == spec_exec_r(*self, old(regs)@, *old(pc)).1,
            *final(mem) == *old(mem),
            final(regs)@.len() == 32,
            r == Ok::<(), Fault>(()),
    {
        let a = regs[self.rs1 as usize];
        let b = regs[self.rs2 as usize];
        assert((b & 0x1F) < 32) by (bit_vector);
        let val = match RTypeALUFuncSel::from_funct3(self.func3) {
            RTypeALUFuncSel::AddSub => if self.func7 != 0 {
                a.wrapping_sub(b)
            } else {
                a.wrapping_add(b)
            },
            RTypeALUFuncSel::Sll => a << (b & 0x1F),
            RTypeALUFuncSel::Slt => if (a as i32) < (b as i32) {
                1
            } else {
                0
            },
            RTypeALUFuncSel::Sltu => if a < b {
                1
            } else {
                0
            },
            RTypeALUFuncSel::Xor => a ^ b,
            RTypeALUFuncSel::SrlSra => if self.func7 != 0 {
                ((a as i32) >> (b & 0x1F)) as u32
            } else {
                a >> (b & 0x1F)
            },
            RTypeALUFuncSel::Or => a | b,
            RTypeALUFuncSel::And => a & b,
        };
        write_reg(regs, self.rd, val);
        *pc = pc.wrapping_add(4);
        Ok(())
    }
}

// ---------------------------------------------------------------------------
// I-format: loads, ALU with immediate, JALR
// ---------------------------------------------------------------------------
/// A decoded I-format instruction. The immediate is already sign-extended.
#[derive(Clone, Copy, Debug, PartialEq, Eq, Structural)]
pub struct ITypeInst {
    pub imm: u32,
    pub rs1: u8,
    pub func3: u8,
    pub rd: u8,
    pub opcode: u8,
}

/// The fields of an I-format word: imm [31:20] sign-extended, rs1 [19:15],
/// funct3 [14:12], rd [11:7], opcode [6:0].
pub open spec fn spec_decode_i(inst: u32) -> ITypeInst {
    ITypeInst {
        imm: spec_i_imm(inst),
        rs1: ((inst >> 15) & 0x1F) as u8,
        func3: ((inst >> 12) & 0x7) as u8,
        rd: ((inst >> 7) & 0x1F) as u8,
        opcode: (inst & 0x7F) as u8,
    }
}

proof fn lemma_decode_i_bounds(inst: u32)
    by (bit_vector)
    ensures
        (((inst >> 15) & 0x1F) as u8) < 32,
        (((inst >> 12) & 0x7) as u8) < 8,
        (((inst >> 7) & 0x1F) as u8) < 32,
        ((inst & 0x7F) as u8) < 128,
{
}

/// What execution needs of the fields.
pub open spec fn i_fields_bounded(i: ITypeInst) -> bool {
    &&& i.rs1 < 32
    &&& i.func3 < 8
    &&& i.rd < 32
    &&& i.opcode < 128
}

/// The load step: the effective address is rs1 plus the immediate; funct3
/// picks width and extension (LB/LH sign-extend, LBU/LHU zero-extend, LW is
/// the full word). A memory fault stops the instruction: registers and
/// program counter keep their old values and the fault is returned. An
/// unmapped funct3 is a local decode error: the engine treats the
/// instruction as a no-op rather than halting (a policy choice; stricter
/// conformance would promote it to a fault).
pub open spec fn spec_exec_load(i: ITypeInst, regs: Seq<u32>, pc: u32, m: MemModel) -> (
    Seq<u32>,
    u32,
    MemModel,
    Result<(), Fault>,
)
    recommends
        regs.len() == 32,
        i_fields_bounded(i),
{
    let addr = regs[i.rs1 as int].wrapping_add(i.imm) as u64;
    match ITypeLoadFuncSel::spec_from_funct3(i.func3) {
        None => (regs, pc.wrapping_add(4), m, Ok(())),
        Some(ITypeLoadFuncSel::Lb) => {
            let r = mem_read8(m, addr);
            match r.1 {
                Err(f) => (regs, pc, r.0, Err(f)),
                Ok(b) => (spec_write_reg(regs, i.rd, sext8to32(b)), pc.wrapping_add(4), r.0, Ok(())),
            }
        },
        Some(ITypeLoadFuncSel::Lh) => {
            let r = mem_read16(m, addr);
            match r.1 {
                Err(f) => (regs, pc, r.0, Err(f)),
                Ok(h) => (
                    spec_write_reg(regs, i.rd, sext16to32(h)),
                    pc.wrapping_add(4),
                    r.0,
                    Ok(()),
                ),
            }
        },
        Some(ITypeLoadFuncSel::Lw) => {
            let r = mem_read32(m, addr);
            match r.1 {
                Err(f) => (regs, pc, r.0, Err(f)),
                Ok(w) => (spec_write_reg(regs, i.rd, w), pc.wrapping_add(4), r.0, Ok(())),
            }
        },
        Some(ITypeLoadFuncSel::Lbu) => {
            let r = mem_read8(m, addr);
            match r.1 {
                Err(f) => (regs, pc, r.0, Err(f)),
                Ok(b) => (spec_write_reg(regs, i.rd, b as u32), pc.wrapping_add(4), r.0, Ok(())),
            }
        },
        Some(ITypeLoadFuncSel::Lhu) => {
            let r = mem_read16(m, addr);
            match r.1 {
                Err(f) => (regs, pc, r.0, Err(f)),
                Ok(h) => (spec_write_reg(regs, i.rd, h as u32), pc.wrapping_add(4), r.0, Ok(())),
            }
        },
    }
}

/// The ALU-with-immediate register file result: the R-format operations
/// with the sign-extended immediate as second operand. An unmapped funct3
/// (there is no shift-immediate here) is a local decode error treated as
/// a no-op, as for loads.
pub open spec fn spec_exec_i_alu(i: ITypeInst, regs: Seq<u32>) -> Seq<u32>
    recommends
        regs.len() == 32,
        i_fields_bounded(i),
{
    let a = regs[i.rs1 as int];
    match ITypeALUFuncSel::spec_from_funct3(i.func3) {
        None => regs,
        Some(ITypeALUFuncSel::Addi) => spec_write_reg(regs, i.rd, a.wrapping_add(i.imm)),
        Some(ITypeALUFuncSel::Slti) => spec_write_reg(
            regs,
            i.rd,
            if spec_slt(a, i.imm) {
                1
            } else {
                0
            },
        ),
        Some(ITypeALUFuncSel::Sltiu) => spec_write_reg(
            regs,
            i.rd,
            if a < i.imm {
                1
            } else {
                0
            },
        ),
        Some(ITypeALUFuncSel::Xori) => spec_write_reg(regs, i.rd, a ^ i.imm),
        Some(ITypeALUFuncSel::Ori) => spec_write_reg(regs, i.rd, a | i.imm),
        Some(ITypeALUFuncSel::Andi) => spec_write_reg(regs, i.rd, a & i.imm),
    }
}

/// The I-format step. Loads and ALU-immediate retire to the next word;
/// JALR writes the return address (pc + 4) to rd and transfers to
/// rs1 + imm with bit 0 cleared. An opcode outside the three I-format
/// families is treated as a no-op (it cannot arise from classification).
pub open spec fn spec_exec_i(i: ITypeInst, regs: Seq<u32>, pc: u32, m: MemModel) -> (
    Seq<u32>,
    u32,
    MemModel,
    Result<(), Fault>,
)
    recommends
        regs.len() == 32,
        i_fields_bounded(i),
{
    match ITypeOpcodes::spec_from_opcode(i.opcode) {
        Some(ITypeOpcodes::Ld) => spec_exec_load(i, regs, pc, m),
        Some(ITypeOpcodes::Alu) => (spec_exec_i_alu(i, regs), pc.wrapping_add(4), m, Ok(())),
        Some(ITypeOpcodes::Jalr) => {
            let target = regs[i.rs1 as int].wrapping_add(i.imm) & 0xFFFF_FFFE;
            (spec_write_reg(regs, i.rd, pc.wrapping_add(4)), target, m, Ok(()))
        },
        None => (regs, pc.wrapping_add(4), m, Ok(())),
    }
}

impl ITypeInst {
    pub open spec fn wf(self) -> bool {
        i_fields_bounded(self)
    }

    /// Extract the I-format fields of an instruction word.
    pub fn new(inst: u32) -> (r: ITypeInst)
        ensures
            r == spec_decode_i(inst),
            r.wf(),
    {
        proof {
            lemma_decode_i_bounds(inst);
        }
        let raw = (inst >> 20) & 0xFFF;
        let imm = if raw & 0x800 != 0 {
            raw | 0xFFFF_F000
        } else {
            raw
        };
        ITypeInst {
            imm,
            rs1: ((inst >> 15) & 0x1F) as u8,
            func3: ((inst >> 12) & 0x7) as u8,
            rd: ((inst >> 7) & 0x1F) as u8,
            opcode: (inst & 0x7F) as u8,
        }
    }

    /// Apply the instruction: see [`spec_exec_i`].
    pub fn execute(&self, regs: &mut Vec<u32>, pc: &mut u32, mem: &mut Memory) -> (r: Result<
        (),
        Fault,
    >)
        requires
            self.wf(),
            old(regs)@.len() == 32,
            old(mem).wf(),
        ensures
            final(regs)@ == spec_exec_i(*self, old(regs)@, *old(pc), old(mem)@).0,
            *final(pc) == spec_exec_i(*self, old(regs)@, *old(pc), old(mem)@).1,
            final(mem)@ == spec_exec_i(*self, old(regs)@, *old(pc), old(mem)@).2,
            r == spec_exec_i(*self, old(regs)@, *old(pc), old(mem)@).3,
            final(regs)@.len() == 32,
            final(mem).wf(),
    {
        let a = regs[self.rs1 as usize];
        match ITypeOpcodes::from_opcode(self.opcode) {
            Some(ITypeOpcodes::Ld) => {
                let addr = a.wrapping_add(self.imm) as u64;
                match ITypeLoadFuncSel::from_funct3(self.func3) {
                    None => {
                        *pc = pc.wrapping_add(4);
                        Ok(())
                    },
                    Some(ITypeLoadFuncSel::Lb) => {
                        match mem.read_8bit(addr) {
                            Err(f) => Err(f),
                            Ok(b) => {
                                let val = if b & 0x80 != 0 {
                                    (b as u32) | 0xFFFF_FF00
                                } else {
                                    b as u32
                                };
                                write_reg(regs, self.rd, val);
                                *pc = pc.wrapping_add(4);
                                Ok(())
                            },
                        }
                    },
                    Some(ITypeLoadFuncSel::Lh) => {
                        match mem.read_16bit(addr) {
                            Err(f) => Err(f),
                            Ok(h) => {
                                let val = if h & 0x8000 != 0 {
                                    (h as u32) | 0xFFFF_0000
                                } else {
                                    h as u32
                                };
                                write_reg(regs, self.rd, val);
                                *pc = pc.wrapping_add(4);
                                Ok(())
                            },
                        }
                    },
                    Some(ITypeLoadFuncSel::Lw) => {
                        match mem.read_32bit(addr) {
                            Err(f) => Err(f),
                            Ok(w) => {
                                write_reg(regs, self.rd, w);
                                *pc = pc.wrapping_add(4);
                                Ok(())
                            },
                        }
                    },
                    Some(ITypeLoadFuncSel::Lbu) => {
                        match mem.read_8bit(addr) {
                            Err(f) => Err(f),
                            Ok(b) => {
                                write_reg(regs, self.rd, b as u32);
                                *pc = pc.wrapping_add(4);
                                Ok(())
                            },
                        }
                    },
                    Some(ITypeLoadFuncSel::Lhu) => {
                        match mem.read_16bit(addr) {
                            Err(f) => Err(f),
                            Ok(h) => {
                                write_reg(regs, self.rd, h as u32);
                                *pc = pc.wrapping_add(4);
                                Ok(())
                            },
                        }
                    },
                }
            },
            Some(ITypeOpcodes::Alu) => {
                match ITypeALUFuncSel::from_funct3(self.func3) {
                    None => {},
                    Some(ITypeALUFuncSel::Addi) => write_reg(regs, self.rd, a.wrapping_add(self.imm)),
                    Some(ITypeALUFuncSel::Slti) => write_reg(
                        regs,
                        self.rd,
                        if (a as i32) < (self.imm as i32) {
                            1
                        } else {
                            0
                        },
                    ),
                    Some(ITypeALUFuncSel::Sltiu) => write_reg(
                        regs,
                        self.rd,
                        if a < self.imm {
                            1
                        } else {
                            0
                        },
                    ),
                    Some(ITypeALUFuncSel::Xori) => write_reg(regs, self.rd, a ^ self.imm),
                    Some(ITypeALUFuncSel::Ori) => write_reg(regs, self.rd, a | self.imm),
                    Some(ITypeALUFuncSel::Andi) => write_reg(regs, self.rd, a & self.imm),
                }
                *pc = pc.wrapping_add(4);
                Ok(())
            },
            Some(ITypeOpcodes::Jalr) => {
                let target = a.wrapping_add(self.imm) & 0xFFFF_FFFE;
                write_reg(regs, self.rd, pc.wrapping_add(4));
                *pc = target;
                Ok(())
            },
            None => {
                *pc = pc.wrapping_add(4);
                Ok(())
            },
        }
    }
}

// ---------------------------------------------------------------------------
// S-format: stores
// ---------------------------------------------------------------------------
/// A decoded S-format instruction. The immediate is already assembled from
/// its two fields and sign-extended.
#[derive(Clone, Copy, Debug, PartialEq, Eq, Structural)]
pub struct STypeInst {
    pub imm: u32,
    pub rs2: u8,
    pub rs1: u8,
    pub func3: u8,
    pub opcode: u8,
}

/// The fields of an S-format word: imm from [31:25] (high part) and [11:7]
/// (low part) sign-extended, rs2 [24:20], rs1 [19:15], funct3 [14:12],
/// opcode [6:0].
pub open spec fn spec_decode_s(inst: u32) -> STypeInst {
    STypeInst {
        imm: spec_s_imm(inst),
        rs2: ((inst >> 20) & 0x1F) as u8,
        rs1: ((inst >> 15) & 0x1F) as u8,
        func3: ((inst >> 12) & 0x7) as u8,
        opcode: (inst & 0x7F) as u8,
    }
}

proof fn lemma_decode_sb_bounds(inst: u32)
    by (bit_vector)
    ensures
        (((inst >> 20) & 0x1F) as u8) < 32,
        (((inst >> 15) & 0x1F) as u8) < 32,
        (((inst >> 12) & 0x7) as u8) < 8,
        ((inst & 0x7F) as u8) < 128,
{
}

/// What execution needs of the fields.
pub open spec fn s_fields_bounded(i: STypeInst) -> bool {
    &&& i.rs2 < 32
    &&& i.rs1 < 32
    &&& i.func3 < 8
    &&& i.opcode < 128
}

/// The store step: the low 8/16/32 bits of rs2 go to address rs1 plus the
/// immediate; funct3 picks the width. A memory fault stops the instruction
/// as for loads. An unmapped funct3 is a local decode error treated as a
/// no-op, as for loads.
pub open spec fn spec_exec_s(i: STypeInst, regs: Seq<u32>, pc: u32, m: MemModel) -> (
    Seq<u32>,
    u32,
    MemModel,
    Result<(), Fault>,
)
    recommends
        regs.len() == 32,
        s_fields_bounded(i),
{
    let addr = regs[i.rs1 as int].wrapping_add(i.imm) as u64;
    let v = regs[i.rs2 as int];
    match STypeStoreFuncSel::spec_from_funct3(i.func3) {
        None => (regs, pc.wrapping_add(4), m, Ok(())),
        Some(STypeStoreFuncSel::Sb) => {
            let r = mem_write8(m, addr, (v & 0xFF) as u8);
            match r.1 {
                Err(f) => (regs, pc, r.0, Err(f)),
                Ok(_) => (regs, pc.wrapping_add(4), r.0, Ok(())),
            }
        },
        Some(STypeStoreFuncSel::Sh) => {
            let r = mem_write16(m, addr, (v & 0xFFFF) as u16);
            match r.1 {
                Err(f) => (regs, pc, r.0, Err(f)),
                Ok(_) => (regs, pc.wrapping_add(4), r.0, Ok(())),
            }
        },
        Some(STypeStoreFuncSel::Sw) => {
            let r = mem_write32(m, addr, v);
            match r.1 {
                Err(f) => (regs, pc, r.0, Err(f)),
                Ok(_) => (regs, pc.wrapping_add(4), r.0, Ok(())),
            }
        },
    }
}

impl STypeInst {
    pub open spec fn wf(self) -> bool {
        s_fields_bounded(self)
    }

    /// Extract the S-format fields of an instruction word.
    pub fn new(inst: u32) -> (r: STypeInst)
        ensures
            r == spec_decode_s(inst),
            r.wf(),
    {
        proof {
            lemma_decode_sb_bounds(inst);
        }
        let raw = (((inst >> 25) & 0x7F) << 5) | ((inst >> 7) & 0x1F);
        let imm = if raw & 0x800 != 0 {
            raw | 0xFFFF_F000
        } else {
            raw
        };
        STypeInst {
            imm,
            rs2: ((inst >> 20) & 0x1F) as u8,
            rs1: ((inst >> 15) & 0x1F) as u8,
            func3: ((inst >> 12) & 0x7) as u8,
            opcode: (inst & 0x7F) as u8,
        }
    }

    /// Apply the instruction: see [`spec_exec_s`].
    pub fn execute(&self, regs: &mut Vec<u32>, pc: &mut u32, mem: &mut Memory) -> (r: Result<
        (),
        Fault,
    >)
        requires
            self.wf(),
            old(regs)@.len() == 32,
            old(mem).wf(),
        ensures
            final(regs)@ == spec_exec_s(*self, old(regs)@, *old(pc), old(mem)@).0,
            *final(pc) == spec_exec_s(*self, old(regs)@, *old(pc), old(mem)@).1,
            final(mem)@ == spec_exec_s(*self, old(regs)@, *old(pc), old(mem)@).2,
            r == spec_exec_s(*self, old(regs)@, *old(pc), old(mem)@).3,
            final(regs)@.len() == 32,
            final(mem).wf(),
    {
        let addr = regs[self.rs1 as usize].wrapping_add(self.imm) as u64;
        let v = regs[self.rs2 as usize];
        match STypeStoreFuncSel::from_funct3(self.func3) {
            None => {
                *pc = pc.wrapping_add(4);
                Ok(())
            },
            Some(STypeStoreFuncSel::Sb) => {
                match mem.write_8bit(addr, (v & 0xFF) as u8) {
                    Err(f) => Err(f),
                    Ok(_) => {
                        *pc = pc.wrapping_add(4);
                        Ok(())
                    },
                }
            },
            Some(STypeStoreFuncSel::Sh) => {
                match mem.write_16bit(addr, (v & 0xFFFF) as u16) {
                    Err(f) => Err(f),
                    Ok(_) => {
                        *pc = pc.wrapping_add(4);
                        Ok(())
                    },
                }
            },
            Some(STypeStoreFuncSel::Sw) => {
                match mem.write_32bit(addr, v) {
                    Err(f) => Err(f),
                    Ok(_) => {
                        *pc = pc.wrapping_add(4);
                        Ok(())
                    },
                }
            },
        }
    }
}

// ---------------------------------------------------------------------------
// B-format: conditional branches
// ---------------------------------------------------------------------------
/// A decoded B-format instruction. The immediate is already assembled from
/// its scattered bits (bit 0 forced to zero) and sign-extended.
#[derive(Clone, Copy, Debug, PartialEq, Eq, Structural)]
pub struct BTypeInst {
    pub imm: u32,
    pub rs2: u8,
    pub rs1: u8,
    pub func3: u8,
    pub opcode: u8,
}

/// The fields of a B-format word: imm per [`spec_b_imm`], rs2 [24:20], rs1
/// [19:15], funct3 [14:12], opcode [6:0].
pub open spec fn spec_decode_b(inst: u32) -> BTypeInst {
    BTypeInst {
        imm: spec_b_imm(inst),
        rs2: ((inst >> 20) & 0x1F) as u8,
        rs1: ((inst >> 15) & 0x1F) as u8,
        func3: ((inst >> 12) & 0x7) as u8,
        opcode: (inst & 0x7F) as u8,
    }
}

/// What execution needs of the fields.
pub open spec fn b_fields_bounded(i: BTypeInst) -> bool {
    &&& i.rs2 < 32
    &&& i.rs1 < 32
    &&& i.func3 < 8
    &&& i.opcode < 128
}

/// Whether the branch condition holds of the two register values.
pub open spec fn spec_branch_taken(sel: BTypeBranchFuncSel, a: u32, b: u32) -> bool {
    match sel {
        BTypeBranchFuncSel::Beq => a == b,
        BTypeBranchFuncSel::Bne => a != b,
        BTypeBranchFuncSel::Blt => spec_slt(a, b),
        BTypeBranchFuncSel::Bge => !spec_slt(a, b),
        BTypeBranchFuncSel::Bltu => a < b,
        BTypeBranchFuncSel::Bgeu => a >= b,
    }
}

/// The branch step: if the condition on rs1 and rs2 holds, the program
/// counter moves to pc plus the immediate, else to the next word. An
/// unmapped funct3 is a local decode error treated as a not-taken
/// branch, as for the other formats' no-ops.
pub open spec fn spec_exec_b(i: BTypeInst, regs: Seq<u32>, pc: u32) -> (Seq<u32>, u32)
    recommends
        regs.len() == 32,
        b_fields_bounded(i),
{
    let a = regs[i.rs1 as int];
    let b = regs[i.rs2 as int];
    let taken = match BTypeBranchFuncSel::spec_from_funct3(i.func3) {
        None => false,
        Some(sel) => spec_branch_taken(sel, a, b),
    };
    if taken {
        (regs, pc.wrapping_add(i.imm))
    } else {
        (regs, pc.wrapping_add(4))
    }
}

impl BTypeInst {
    pub open spec fn wf(self) -> bool {
        b_fields_bounded(self)
    }

    /// Extract the B-format fields of an instruction word.
    pub fn new(inst: u32) -> (r: BTypeInst)
        ensures
            r == spec_decode_b(inst),
            r.wf(),
    {
        proof {
            lemma_decode_sb_bounds(inst);
        }
        let raw = (((inst >> 31) & 0x1) << 12) | (((inst >> 7) & 0x1) << 11) | (((inst >> 25)
            & 0x3F) << 5) | (((inst >> 8) & 0xF) << 1);
        let imm = if raw & 0x1000 != 0 {
            raw | 0xFFFF_E000
        } else {
            raw
        };
        BTypeInst {
            imm,
            rs2: ((inst >> 20) & 0x1F) as u8,
            rs1: ((inst >> 15) & 0x1F) as u8,
            func3: ((inst >> 12) & 0x7) as u8,
            opcode: (inst & 0x7F) as u8,
        }
    }

    /// Apply the instruction: see [`spec_exec_b`]. Never faults and never
    /// touches registers or memory.
    pub fn execute(&self, regs: &mut Vec<u32>, pc: &mut u32, mem: &mut Memory) -> (r: Result<
        (),
        Fault,
    >)
        requires
            self.wf(),
            old(regs)@.len() == 32,
            old(mem).wf(),
        ensures
            final(regs)@ == spec_exec_b(*self, old(regs)@, *old(pc)).0,
            *final(pc) == spec_exec_b(*self, old(regs)@, *old(pc)).1,
            *final(mem) == *old(mem),
            final(regs)@.len() == 32,
            r == Ok::<(), Fault>(()),
    {
        let a = regs[self.rs1 as usize];
        let b = regs[self.rs2 as usize];
        let taken = match BTypeBranchFuncSel::from_funct3(self.func3) {
            None => false,
            Some(BTypeBranchFuncSel::Beq) => a == b,
            Some(BTypeBranchFuncSel::Bne) => a != b,
            Some(BTypeBranchFuncSel::Blt) => (a as i32) < (b as i32),
            Some(BTypeBranchFuncSel::Bge) => !((a as i32) < (b as i32)),
            Some(BTypeBranchFuncSel::Bltu) => a < b,
            Some(BTypeBranchFuncSel::Bgeu) => a >= b,
        };
        if taken {
            *pc = pc.wrapping_add(self.imm);
        } else {
            *pc = pc.wrapping_add(4);
        }
        Ok(())
    }
}

// ---------------------------------------------------------------------------
// U-format: LUI and AUIPC
// ---------------------------------------------------------------------------
/// A decoded U-format instruction. The immediate keeps bits [31:12] of the
/// word in place, with the low 12 bits zero.
#[derive(Clone, Copy, Debug, PartialEq, Eq, Structural)]
pub struct UTypeInst {
    pub imm: u32,
    pub rd: u8,
    pub opcode: u8,
}

/// The fields of a U-format word: imm per [`spec_u_imm`], rd [11:7],
/// opcode [6:0].
pub open spec fn spec_decode_u(inst: u32) -> UTypeInst {
    UTypeInst { imm: spec_u_imm(inst), rd: ((inst >> 7) & 0x1F) as u8, opcode: (inst & 0x7F) as u8 }
}

proof fn lemma_decode_uj_bounds(inst: u32)
    by (bit_vector)
    ensures
        (((inst >> 7) & 0x1F) as u8) < 32,
        ((inst & 0x7F) as u8) < 128,
{
}

/// What execution needs of the fields.
pub open spec fn u_fields_bounded(i: UTypeInst) -> bool {
    &&& i.rd < 32
    &&& i.opcode < 128
}

/// The U-format step: LUI writes the positioned immediate to rd, AUIPC
/// writes pc plus the immediate; the program counter retires to the next
/// word. An opcode outside the two U-format operations is treated as a
/// no-op (it cannot arise from classification).
pub open spec fn spec_exec_u(i: UTypeInst, regs: Seq<u32>, pc: u32) -> (Seq<u32>, u32)
    recommends
        regs.len() == 32,
        u_fields_bounded(i),
{
    let regs2 = match UTypeOpcodes::spec_from_opcode(i.opcode) {
        Some(UTypeOpcodes::Lui) => spec_write_reg(regs, i.rd, i.imm),
        Some(UTypeOpcodes::Auipc) => spec_write_reg(regs, i.rd, pc.wrapping_add(i.imm)),
        None => regs,
    };
    (regs2, pc.wrapping_add(4))
}

impl UTypeInst {
    pub open spec fn wf(self) -> bool {
        u_fields_bounded(self)
    }

    /// Extract the U-format fields of an instruction word.
    pub fn new(inst: u32) -> (r: UTypeInst)
        ensures
            r == spec_decode_u(inst),
            r.wf(),
    {
        proof {
            lemma_decode_uj_bounds(inst);
        }
        UTypeInst {
            imm: inst & 0xFFFF_F000,
            rd: ((inst >> 7) & 0x1F) as u8,
            opcode: (inst & 0x7F) as u8,
        }
    }

    /// Apply the instruction: see [`spec_exec_u`]. Never faults and never
    /// touches memory.
    pub fn execute(&self, regs: &mut Vec<u32>, pc: &mut u32, mem: &mut Memory) -> (r: Result<
        (),
        Fault,
    >)
        requires
            self.wf(),
            old(regs)@.len() == 32,
            old(mem).wf(),
        ensures
            final(regs)@ == spec_exec_u(*self, old(regs)@, *old(pc)).0,
            *final(pc) == spec_exec_u(*self, old(regs)@, *old(pc)).1,
            *final(mem) == *old(mem),
            final(regs)@.len() == 32,
            r == Ok::<(), Fault>(()),
    {
        match UTypeOpcodes::from_opcode(self.opcode) {
            Some(UTypeOpcodes::Lui) => write_reg(regs, self.rd, self.imm),
            Some(UTypeOpcodes::Auipc) => write_reg(regs, self.rd, pc.wrapping_add(self.imm)),
            None => {},
        }
        *pc = pc.wrapping_add(4);
        Ok(())
    }
}

// ---------------------------------------------------------------------------
// J-format: JAL
// ---------------------------------------------------------------------------
/// A decoded J-format instruction. The immediate is already assembled from
/// its scattered bits (bit 0 forced to zero) and sign-extended.
#[derive(Clone, Copy, Debug, PartialEq, Eq, Structural)]
pub struct JTypeInst {
    pub imm: u32,
    pub rd: u8,
    pub opcode: u8,
}

/// The fields of a J-format word: imm per [`spec_j_imm`], rd [11:7],
/// opcode [6:0].
pub open spec fn spec_decode_j(inst: u32) -> JTypeInst {
    JTypeInst { imm: spec_j_imm(inst), rd: ((inst >> 7) & 0x1F) as u8, opcode: (inst & 0x7F) as u8 }
}

/// What execution needs of the fields.
pub open spec fn j_fields_bounded(i: JTypeInst) -> bool {
    &&& i.rd < 32
    &&& i.opcode < 128
}

/// The JAL step: rd receives the return address (pc + 4) and the program
/// counter moves to pc plus the immediate.
pub open spec fn spec_exec_j(i: JTypeInst, regs: Seq<u32>, pc: u32) -> (Seq<u32>, u32)
    recommends
        regs.len() == 32,
        j_fields_bounded(i),
{
    (spec_write_reg(regs, i.rd, pc.wrapping_add(4)), pc.wrapping_add(i.imm))
}

impl JTypeInst {
    pub open spec fn wf(self) -> bool {
        j_fields_bounded(self)
    }

    /// Extract the J-format fields of an instruction word.
    pub fn new(inst: u32) -> (r: JTypeInst)
        ensures
            r == spec_decode_j(inst),
            r.wf(),
    {
        proof {
            lemma_decode_uj_bounds(inst);
        }
        let raw = (((inst >> 31) & 0x1) << 20) | (((inst >> 12) & 0xFF) << 12) | (((inst >> 20)
            & 0x1) << 11) | (((inst >> 21) & 0x3FF) << 1);
        let imm = if raw & 0x10_0000 != 0 {
            raw | 0xFFE0_0000
        } else {
            raw
        };
        JTypeInst { imm, rd: ((inst >> 7) & 0x1F) as u8, opcode: (inst & 0x7F) as u8 }
    }

    /// Apply the instruction: see [`spec_exec_j`]. Never faults and never
    /// touches memory.
    pub fn execute(&self, regs: &mut Vec<u32>, pc: &mut u32, mem: &mut Memory) -> (r: Result<
        (),
        Fault,
    >)
        requires
            self.wf(),
            old(regs)@.len() == 32,
            old(mem).wf(),
        ensures
            final(regs)@ == spec_exec_j(*self, old(regs)@, *old(pc)).0,
            *final(pc) == spec_exec_j(*self, old(regs)@, *old(pc)).1,
            *final(mem) == *old(mem),
            final(regs)@.len() == 32,
            r == Ok::<(), Fault>(()),
    {
        let ret = pc.wrapping_add(4);
        *pc = pc.wrapping_add(self.imm);
        write_reg(regs, self.rd, ret);
        Ok(())
    }
}

} // verus!
