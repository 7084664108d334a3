//! The execution engine: register file, program counter and the
//! fetch-decode-execute-retire step.
//!
//! Register 0 is hard-wired to zero: writes to it are discarded, so it
//! reads zero forever. The program counter is exactly as wide as the
//! architecture's address space (32 bits). All arithmetic wraps modulo
//! 2^32.
//!
//! A step fails with [`Fault::DecodeFault`] on an unrecognized opcode and
//! with [`Fault::MemoryBoundsFault`] on an access outside both allocated
//! memory and the peripheral window; both are unrecoverable, and the caller
//! is expected to stop the machine (a bare-metal target has no supervisor
//! to trap into).

use crate::idecoder::{
    spec_classify, spec_decode_b, spec_decode_i, spec_decode_j, spec_decode_r, spec_decode_s,
    spec_decode_u, spec_exec_b, spec_exec_i, spec_exec_j, spec_exec_r, spec_exec_s, spec_exec_u,
    BTypeInst, ITypeInst, InstType, JTypeInst, RTypeInst, STypeInst, UTypeInst,
    opcode_to_InstType,
};
use crate::memory::{mem_read32, Fault, MemModel, Memory};
use vstd::prelude::*;

verus! {

/// Mathematical model of the whole machine: the 32 registers, the program
/// counter and the memory bus.
#[verifier::ext_equal]
pub struct CpuModel {
    pub regs: Seq<u32>,
    pub pc: u32,
    pub mem: MemModel,
}

impl CpuModel {
    /// Exactly 32 registers, register 0 zero, and a well-formed bus.
    pub open spec fn wf(self) -> bool {
        &&& self.regs.len() == 32
        &&& self.regs[0] == 0
        &&& self.mem.wf()
    }
}

/// One machine step at the model level: fetch the word at pc, classify it,
/// and apply the format's semantics. An `Invalid` classification is a
/// decode fault; a fetch outside memory is a bounds fault. On a fault the
/// registers and the program counter keep their old values (the machine is
/// halting anyway), while the memory model keeps whatever the partial
/// fetch did to the UART.
pub open spec fn spec_step(c: CpuModel) -> (CpuModel, Result<(), Fault>) {
    let f = mem_read32(c.mem, c.pc as u64);
    let m1 = f.0;
    match f.1 {
        Err(fault) => (CpuModel { mem: m1, ..c }, Err(fault)),
        Ok(w) => match spec_classify(w) {
            InstType::RType => {
                let r = spec_exec_r(spec_decode_r(w), c.regs, c.pc);
                (CpuModel { regs: r.0, pc: r.1, mem: m1 }, Ok(()))
            },
            InstType::IType => {
                let r = spec_exec_i(spec_decode_i(w), c.regs, c.pc, m1);
                (CpuModel { regs: r.0, pc: r.1, mem: r.2 }, r.3)
            },
            InstType::SType => {
                let r = spec_exec_s(spec_decode_s(w), c.regs, c.pc, m1);
                (CpuModel { regs: r.0, pc: r.1, mem: r.2 }, r.3)
            },
            InstType::BType => {
                let r = spec_exec_b(spec_decode_b(w), c.regs, c.pc);
                (CpuModel { regs: r.0, pc: r.1, mem: m1 }, Ok(()))
            },
            InstType::UType => {
                let r = spec_exec_u(spec_decode_u(w), c.regs, c.pc);
                (CpuModel { regs: r.0, pc: r.1, mem: m1 }, Ok(()))
            },
            InstType::JType => {
                let r = spec_exec_j(spec_decode_j(w), c.regs, c.pc);
                (CpuModel { regs: r.0, pc: r.1, mem: m1 }, Ok(()))
            },
            InstType::Invalid => (CpuModel { mem: m1, ..c }, Err(Fault::DecodeFault(w))),
        },
    }
}

/// The CPU: 32 general-purpose registers, the program counter and the
/// memory bus it owns.
pub struct Cpu {
    pub regs: Vec<u32>,
    pub pc: u32,
    pub mem: Memory,
}

impl View for Cpu {
    type V = CpuModel;

    open spec fn view(&self) -> CpuModel {
        CpuModel { regs: self.regs@, pc: self.pc, mem: self.mem@ }
    }
}

impl Cpu {
    pub open spec fn wf(self) -> bool {
        &&& self@.wf()
        &&& self.mem.wf()
    }

    /// A machine at reset: registers and program counter zeroed, empty
    /// little-endian memory, fresh UART.
    pub fn new() -> (r: Cpu)
        ensures
            r.wf(),
            r@.pc == 0,
            r@.regs.len() == 32,
            forall|i: int| 0 <= i < 32 ==> r@.regs[i] == 0,
            r@.mem.bytes.len() == 0,
            r@.mem.little,
            r@.mem.uart.rx.len() == 0,
            r@.mem.uart.tx.len() == 0,
    {
        let mut regs: Vec<u32> = Vec::new();
        while regs.len() < 32
            invariant
                regs@.len() <= 32,
                forall|i: int| 0 <= i < regs@.len() ==> regs@[i] == 0,
            decreases 32 - regs@.len(),
        {
            regs.push(0);
        }
        Cpu { regs, pc: 0, mem: Memory::new() }
    }

    /// One fetch-decode-execute-retire step: see [`spec_step`]. The retire
    /// is part of each format's semantics: the program counter advances by
    /// 4 unless the instruction redirected control flow (taken branch, JAL,
    /// JALR).
    pub fn step(&mut self) -> (r: Result<(), Fault>)
        requires
            old(self).wf(),
        ensures
            final(self).wf(),
            final(self)@ == spec_step(old(self)@).0,
            r == spec_step(old(self)@).1,
    {
        let word = match self.mem.read_32bit(self.pc as u64) {
            Err(f) => {
                assert(self@ =~= spec_step(old(self)@).0);
                return Err(f);
            },
            Ok(w) => w,
        };
        let r = match opcode_to_InstType(word) {
            InstType::RType => {
                let i = RTypeInst::new(word);
                i.execute(&mut self.regs, &mut self.pc, &mut self.mem)
            },
            InstType::IType => {
                let i = ITypeInst::new(word);
                i.execute(&mut self.regs, &mut self.pc, &mut self.mem)
            },
            InstType::SType => {
                let i = STypeInst::new(word);
                i.execute(&mut self.regs, &mut self.pc, &mut self.mem)
            },
            InstType::BType => {
                let i = BTypeInst::new(word);
                i.execute(&mut self.regs, &mut self.pc, &mut self.mem)
            },
            InstType::UType => {
                let i = UTypeInst::new(word);
                i.execute(&mut self.regs, &mut self.pc, &mut self.mem)
            },
            InstType::JType => {
                let i = JTypeInst::new(word);
                i.execute(&mut self.regs, &mut self.pc, &mut self.mem)
            },
            InstType::Invalid => Err(Fault::DecodeFault(word)),
        };
        assert(self@ =~= spec_step(old(self)@).0);
        r
    }
}

} // verus!
