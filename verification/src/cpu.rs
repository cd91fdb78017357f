//! The execution engine: register file, CSR file, program counter,
//! privilege mode, and the bus, driven by a fetch-decode-execute cycle.
//!
//! `execute` performs exactly one step of the specification interpreter
//! `step::cpu_step`; on failure the architectural state is unchanged and
//! the returned exception carries the trap kind the interpreter assigns.
//! `handle_trap` performs exactly `step::trap_step`.

use crate::bus::{bus_read_spec, Bus, DRAM_END, DTB_START};
use crate::exception::{fault_of, matches_fault, Exception, Fault};
use crate::isa::{
    decode_imm_b, decode_imm_i, decode_imm_j, decode_imm_s, decode_imm_u, div_signed,
    div_signed_w, div_unsigned, div_unsigned_w, mulh, mulhu, opcode_of, rem_signed, rem_signed_w,
    rem_unsigned, rem_unsigned_w, slt_signed,
};
use crate::regs::{Csrs, Xregs, CSR_MCAUSE, CSR_MEPC, CSR_MISA, CSR_MSTATUS, CSR_MTVAL, CSR_MTVEC};
use crate::step::{
    cpu_step, step32, step_amo, step_branch, step_jal, step_jalr, step_load, step_mret, step_op,
    step_op32, step_opimm, step_opimm32, step_store, step_system, steps_to, trap_step, CpuView,
    Mode,
};
use vstd::prelude::*;

verus! {

/// The value the ISA-description CSR is preset to at construction: RV64
/// with the base integer extension.
pub const MISA_RV64I: u64 = 0x8000_0000_0000_1000;

/// One RV64 hardware thread.
pub struct Cpu {
    pub bus: Bus,
    xregs: Xregs,
    pc: u64,
    csrs: Csrs,
    mode: Mode,
}

impl View for Cpu {
    type V = CpuView;

    closed spec fn view(&self) -> CpuView {
        CpuView {
            regs: self.xregs@,
            csrs: self.csrs@,
            pc: self.pc,
            mode: self.mode,
            bus: self.bus@,
        }
    }
}

impl Cpu {
    /// The structural invariant: 32 registers with register 0 pinned to
    /// zero, 4096 CSRs, and full-capacity main memory.
    pub closed spec fn wf(&self) -> bool {
        self.xregs.wf() && self.csrs.wf() && self.bus.wf()
    }

    /// The invariant, stated over the architectural view.
    pub proof fn lemma_wf_view(&self)
        requires
            self.wf(),
        ensures
            self@.regs.len() == 32,
            self@.regs[0] == 0,
            self@.csrs.len() == 4096,
            self@.bus.dram.len() == crate::dram::DRAM_SIZE,
    {
    }

    /// A fresh engine: machine mode, program counter zero, all registers
    /// and CSRs zero except the stack pointer (top of main memory), the
    /// boot-blob pointer in a1, and the ISA-description CSR.
    pub fn new() -> (r: Cpu)
        ensures
            r.wf(),
            r@.pc == 0,
            r@.mode is Machine,
            r@.regs == Seq::new(32, |i: int| 0u64).update(2, DRAM_END).update(11, DTB_START),
            r@.csrs == Seq::new(4096, |i: int| 0u64).update(CSR_MISA as int, MISA_RV64I),
            r@.bus.rom == Seq::<u8>::empty(),
            r@.bus.console == Seq::<u8>::empty(),
            r@.bus.dram.len() == crate::dram::DRAM_SIZE,
            forall|i: int| 0 <= i < crate::dram::DRAM_SIZE ==> r@.bus.dram[i] == 0,
    {
        let mut xregs = Xregs::new();
        xregs.write(2, DRAM_END);
        xregs.write(11, DTB_START);
        let mut csrs = Csrs::new();
        csrs.write(CSR_MISA, MISA_RV64I);
        let r = Cpu { bus: Bus::new(), xregs, pc: 0, csrs, mode: Mode::Machine };
        proof {
            assert(r@.regs =~= Seq::new(32, |i: int| 0u64).update(2, DRAM_END).update(
                11,
                DTB_START,
            ));
        }
        r
    }

    /// Sets the program counter (the boot loader points it at the start
    /// of main memory before the first fetch).
    pub fn set_pc(&mut self, pc: u64)
        requires
            old(self).wf(),
        ensures
            final(self).wf(),
            final(self)@ == (CpuView { pc, ..old(self)@ }),
    {
        self.pc = pc;
    }

    /// The current program counter.
    pub fn pc(&self) -> (r: u64)
        ensures
            r == self@.pc,
    {
        self.pc
    }

    /// The value of general-purpose register `index`.
    pub fn read_reg(&self, index: u64) -> (r: u64)
        requires
            self.wf(),
            index < 32,
        ensures
            r == self@.regs[index as int],
    {
        self.xregs.read(index)
    }

    /// Writes general-purpose register `index`; register 0 stays zero.
    pub fn write_reg(&mut self, index: u64, value: u64)
        requires
            old(self).wf(),
            index < 32,
        ensures
            final(self).wf(),
            final(self)@ == (CpuView {
                regs: crate::regs::reg_write(old(self)@.regs, index, value),
                ..old(self)@
            }),
    {
        self.xregs.write(index, value);
    }

    /// The value of CSR `index`.
    pub fn read_csr(&self, index: u64) -> (r: u64)
        requires
            self.wf(),
            index < 4096,
        ensures
            r == self@.csrs[index as int],
    {
        self.csrs.read(index)
    }

    /// Writes CSR `index`.
    pub fn write_csr(&mut self, index: u64, value: u64)
        requires
            old(self).wf(),
            index < 4096,
        ensures
            final(self).wf(),
            final(self)@ == (CpuView {
                csrs: old(self)@.csrs.update(index as int, value),
                ..old(self)@
            }),
    {
        self.csrs.write(index, value);
    }

    /// Reads `size` bits at the program counter.
    fn fetch(&self, size: u8) -> (r: Result<u64, Exception>)
        requires
            self.wf(),
        ensures
            matches_fault(r, bus_read_spec(self@.bus, self@.pc, size)),
    {
        self.bus.read(self.pc, size)
    }

    /// One fetch-decode-execute step: exactly `cpu_step` of the
    /// specification interpreter. On failure the architectural state is
    /// unchanged; the caller delivers the trap.
    pub fn execute(&mut self) -> (r: Result<(), Exception>)
        requires
            old(self).wf(),
        ensures
            final(self).wf(),
            steps_to(old(self)@, cpu_step(old(self)@), r, final(self)@),
    {
        let h = match self.fetch(16) {
            Ok(v) => v,
            Err(e) => return Err(e),
        };
        if h % 4 == 3 {
            let inst = match self.fetch(32) {
                Ok(v) => v,
                Err(e) => return Err(e),
            };
            proof {
                crate::bus::lemma_bus_read_bound(old(self)@.bus, old(self)@.pc, 32);
                crate::bytes::lemma_width_pow2();
            }
            match self.execute_uncompressed(inst) {
                Ok(()) => {},
                Err(e) => return Err(e),
            }
            let pc2 = self.pc.wrapping_add(4);
            self.set_pc(pc2);
            Ok(())
        } else if h % 4 == 1 || h % 4 == 2 {
            match self.execute_compressed(h) {
                Ok(()) => {},
                Err(e) => return Err(e),
            }
            let pc2 = self.pc.wrapping_add(2);
            self.set_pc(pc2);
            Ok(())
        } else {
            Err(Exception::IllegalInstruction("zero opcode"))
        }
    }

    /// Compressed (16-bit) encodings are not supported and fail
    /// explicitly rather than being misdecoded.
    fn execute_compressed(&mut self, _inst: u64) -> (r: Result<(), Exception>)
        requires
            old(self).wf(),
        ensures
            final(self).wf(),
            final(self)@ == old(self)@,
            r is Err && fault_of(r->Err_0) == Fault::Illegal,
    {
        Err(Exception::IllegalInstruction("compressed instruction"))
    }

    /// Decodes and executes one 32-bit instruction word: exactly `step32`
    /// of the specification interpreter, before the uniform advance of
    /// the program counter.
    fn execute_uncompressed(&mut self, inst: u64) -> (r: Result<(), Exception>)
        requires
            old(self).wf(),
            inst < 0x1_0000_0000,
        ensures
            final(self).wf(),
            steps_to(old(self)@, step32(old(self)@, inst), r, final(self)@),
    {
        if inst == 0x3020_0073 {
            // MRET
            let mepc = self.csrs.read(CSR_MEPC);
            let mst = self.csrs.read(CSR_MSTATUS);
            let mpp = mst / 0x800 % 4;
            self.set_pc(mepc.wrapping_sub(4));
            self.mode = if mpp == 0 {
                Mode::User
            } else if mpp == 1 {
                Mode::Supervisor
            } else {
                Mode::Machine
            };
            proof {
                assert(self@ =~= step_mret(old(self)@)->Ok_0);
            }
            return Ok(());
        }
        if inst == 0x0000_0073 {
            // ECALL: a mode-specific trap request, not a decode failure.
            return Err(
                match self.mode {
                    Mode::User => Exception::ECallFromU,
                    Mode::Supervisor => Exception::ECallFromS,
                    Mode::Machine => Exception::ECallFromM,
                },
            );
        }
        if inst == 0x1050_0073 {
            // WFI: no interrupt source is modeled, so waiting would hang.
            return Err(Exception::IllegalInstruction("WFI: no interrupt source"));
        }
        let op = inst % 0x80;
        if op == 0x33 {
            self.exec_op(inst)
        } else if op == 0x3B {
            self.exec_op32(inst)
        } else if op == 0x13 {
            self.exec_opimm(inst)
        } else if op == 0x1B {
            self.exec_opimm32(inst)
        } else if op == 0x37 {
            // LUI
            let rd = inst / 0x80 % 0x20;
            let v = decode_imm_u(inst);
            self.xregs.write(rd, v);
            Ok(())
        } else if op == 0x17 {
            // AUIPC
            let rd = inst / 0x80 % 0x20;
            let v = self.pc.wrapping_add(decode_imm_u(inst));
            self.xregs.write(rd, v);
            Ok(())
        } else if op == 0x6F {
            // JAL
            let rd = inst / 0x80 % 0x20;
            let link = self.pc.wrapping_add(4);
            self.xregs.write(rd, link);
            let target = self.pc.wrapping_add(decode_imm_j(inst)).wrapping_sub(4);
            self.set_pc(target);
            Ok(())
        } else if op == 0x67 {
            // JALR: the base register is read before the link is written.
            let rd = inst / 0x80 % 0x20;
            let rs1 = inst / 0x8000 % 0x20;
            let base = self.xregs.read(rs1);
            let target = decode_imm_i(inst).wrapping_add(base).wrapping_sub(4)
                & 0xFFFF_FFFF_FFFF_FFFE;
            let link = self.pc.wrapping_add(4);
            self.xregs.write(rd, link);
            self.set_pc(target);
            Ok(())
        } else if op == 0x63 {
            self.exec_branch(inst)
        } else if op == 0x03 {
            self.exec_load(inst)
        } else if op == 0x23 {
            self.exec_store(inst)
        } else if op == 0x0F {
            // MISC-MEM (FENCE): a no-op for a single sequential hart.
            Ok(())
        } else if op == 0x73 {
            self.exec_system(inst)
        } else if op == 0x2F {
            self.exec_amo(inst)
        } else {
            Err(Exception::IllegalInstruction("unimplemented opcode"))
        }
    }

    /// OP: register-register arithmetic, logic, and multiply/divide.
    fn exec_op(&mut self, inst: u64) -> (r: Result<(), Exception>)
        requires
            old(self).wf(),
            inst < 0x1_0000_0000,
        ensures
            final(self).wf(),
            steps_to(old(self)@, step_op(old(self)@, inst), r, final(self)@),
    {
        let rd = inst / 0x80 % 0x20;
        let rs1 = inst / 0x8000 % 0x20;
        let rs2 = inst / 0x10_0000 % 0x20;
        let f3 = inst / 0x1000 % 8;
        let f7 = inst / 0x200_0000;
        let a = self.xregs.read(rs1);
        let b = self.xregs.read(rs2);
        let v: u64 = if f3 == 0 && f7 == 0 {
            a.wrapping_add(b)
        } else if f3 == 0 && f7 == 0x20 {
            a.wrapping_sub(b)
        } else if f3 == 1 && f7 == 0 {
            a << (b % 64)
        } else if f3 == 2 && f7 == 0 {
            if slt_signed(a, b) {
                1
            } else {
                0
            }
        } else if f3 == 3 && f7 == 0 {
            if a < b {
                1
            } else {
                0
            }
        } else if f3 == 4 && f7 == 0 {
            a ^ b
        } else if f3 == 5 && f7 == 0 {
            a >> (b % 64)
        } else if f3 == 5 && f7 == 0x20 {
            ((a as i64) >> (b % 64)) as u64
        } else if f3 == 6 && f7 == 0 {
            a | b
        } else if f3 == 7 && f7 == 0 {
            a & b
        } else if f3 == 0 && f7 == 1 {
            a.wrapping_mul(b)
        } else if f3 == 1 && f7 == 1 {
            mulh(a, b)
        } else if f3 == 3 && f7 == 1 {
            mulhu(a, b)
        } else if f3 == 4 && f7 == 1 {
            div_signed(a, b)
        } else if f3 == 5 && f7 == 1 {
            div_unsigned(a, b)
        } else if f3 == 6 && f7 == 1 {
            rem_signed(a, b)
        } else if f3 == 7 && f7 == 1 {
            rem_unsigned(a, b)
        } else if f3 == 2 && f7 == 1 {
            // MULHSU is not implemented.
            return Err(Exception::IllegalInstruction("MULHSU"));
        } else {
            return Err(Exception::IllegalInstruction("OP"));
        };
        self.xregs.write(rd, v);
        Ok(())
    }

    /// OP-32: register-register "W" operations.
    fn exec_op32(&mut self, inst: u64) -> (r: Result<(), Exception>)
        requires
            old(self).wf(),
            inst < 0x1_0000_0000,
        ensures
            final(self).wf(),
            steps_to(old(self)@, step_op32(old(self)@, inst), r, final(self)@),
    {
        let rd = inst / 0x80 % 0x20;
        let rs1 = inst / 0x8000 % 0x20;
        let rs2 = inst / 0x10_0000 % 0x20;
        let f3 = inst / 0x1000 % 8;
        let f7 = inst / 0x200_0000;
        let a = self.xregs.read(rs1);
        let b = self.xregs.read(rs2);
        let v: u64 = if f3 == 0 && f7 == 0 {
            a.wrapping_add(b) as i32 as i64 as u64
        } else if f3 == 0 && f7 == 0x20 {
            a.wrapping_sub(b) as i32 as i64 as u64
        } else if f3 == 1 && f7 == 0 {
            (a << (b % 32)) as i32 as i64 as u64
        } else if f3 == 5 && f7 == 0 {
            ((a % 0x1_0000_0000) >> (b % 32)) as i32 as i64 as u64
        } else if f3 == 5 && f7 == 0x20 {
            ((((a as i32 as i64 as u64) as i64) >> (b % 32)) as u64) as i32 as i64 as u64
        } else if f3 == 0 && f7 == 1 {
            a.wrapping_mul(b) as i32 as i64 as u64
        } else if f3 == 4 && f7 == 1 {
            div_signed_w(a, b)
        } else if f3 == 5 && f7 == 1 {
            div_unsigned_w(a, b)
        } else if f3 == 6 && f7 == 1 {
            rem_signed_w(a, b)
        } else if f3 == 7 && f7 == 1 {
            rem_unsigned_w(a, b)
        } else {
            return Err(Exception::IllegalInstruction("OP-32"));
        };
        self.xregs.write(rd, v);
        Ok(())
    }

    /// OP-IMM: immediate arithmetic and logic.
    fn exec_opimm(&mut self, inst: u64) -> (r: Result<(), Exception>)
        requires
            old(self).wf(),
            inst < 0x1_0000_0000,
        ensures
            final(self).wf(),
            steps_to(old(self)@, step_opimm(old(self)@, inst), r, final(self)@),
    {
        let rd = inst / 0x80 % 0x20;
        let rs1 = inst / 0x8000 % 0x20;
        let f3 = inst / 0x1000 % 8;
        let f7 = inst / 0x200_0000;
        let imm = decode_imm_i(inst);
        let shamt = inst / 0x10_0000 % 0x40;
        let a = self.xregs.read(rs1);
        let v: u64 = if f3 == 0 {
            a.wrapping_add(imm)
        } else if f3 == 1 {
            if f7 == 0 || f7 == 1 {
                a << shamt
            } else {
                return Err(Exception::IllegalInstruction("OP-IMM"));
            }
        } else if f3 == 2 {
            if slt_signed(a, imm) {
                1
            } else {
                0
            }
        } else if f3 == 3 {
            if a < imm {
                1
            } else {
                0
            }
        } else if f3 == 4 {
            a ^ imm
        } else if f3 == 5 {
            if f7 == 0 || f7 == 1 {
                a >> shamt
            } else if f7 == 0x20 || f7 == 0x21 {
                ((a as i64) >> shamt) as u64
            } else {
                return Err(Exception::IllegalInstruction("OP-IMM"));
            }
        } else if f3 == 6 {
            a | imm
        } else {
            a & imm
        };
        self.xregs.write(rd, v);
        Ok(())
    }

    /// OP-IMM-32: immediate "W" operations.
    fn exec_opimm32(&mut self, inst: u64) -> (r: Result<(), Exception>)
        requires
            old(self).wf(),
            inst < 0x1_0000_0000,
        ensures
            final(self).wf(),
            steps_to(old(self)@, step_opimm32(old(self)@, inst), r, final(self)@),
    {
        let rd = inst / 0x80 % 0x20;
        let rs1 = inst / 0x8000 % 0x20;
        let f3 = inst / 0x1000 % 8;
        let f7 = inst / 0x200_0000;
        let imm = decode_imm_i(inst);
        let shamt = inst / 0x10_0000 % 0x20;
        let a = self.xregs.read(rs1);
        let v: u64 = if f3 == 0 {
            a.wrapping_add(imm) as i32 as i64 as u64
        } else if f3 == 1 && f7 == 0 {
            (a << shamt) as i32 as i64 as u64
        } else if f3 == 5 && f7 == 0 {
            ((a % 0x1_0000_0000) >> shamt) as i32 as i64 as u64
        } else if f3 == 5 && f7 == 0x20 {
            ((((a as i32 as i64 as u64) as i64) >> shamt) as u64) as i32 as i64 as u64
        } else {
            return Err(Exception::IllegalInstruction("OP-IMM-32"));
        };
        self.xregs.write(rd, v);
        Ok(())
    }

    /// BRANCH: conditional control transfer.
    fn exec_branch(&mut self, inst: u64) -> (r: Result<(), Exception>)
        requires
            old(self).wf(),
            inst < 0x1_0000_0000,
        ensures
            final(self).wf(),
            steps_to(old(self)@, step_branch(old(self)@, inst), r, final(self)@),
    {
        let rs1 = inst / 0x8000 % 0x20;
        let rs2 = inst / 0x10_0000 % 0x20;
        let f3 = inst / 0x1000 % 8;
        let a = self.xregs.read(rs1);
        let b = self.xregs.read(rs2);
        let taken: bool = if f3 == 0 {
            a == b
        } else if f3 == 1 {
            a != b
        } else if f3 == 4 {
            slt_signed(a, b)
        } else if f3 == 5 {
            !slt_signed(a, b)
        } else if f3 == 6 {
            a < b
        } else if f3 == 7 {
            a >= b
        } else {
            return Err(Exception::IllegalInstruction("BRANCH"));
        };
        if taken {
            let target = self.pc.wrapping_add(decode_imm_b(inst)).wrapping_sub(4);
            self.set_pc(target);
        }
        Ok(())
    }

    /// LOAD: memory reads of each width, signed and unsigned.
    fn exec_load(&mut self, inst: u64) -> (r: Result<(), Exception>)
        requires
            old(self).wf(),
            inst < 0x1_0000_0000,
        ensures
            final(self).wf(),
            steps_to(old(self)@, step_load(old(self)@, inst), r, final(self)@),
    {
        let rd = inst / 0x80 % 0x20;
        let rs1 = inst / 0x8000 % 0x20;
        let f3 = inst / 0x1000 % 8;
        if f3 == 7 {
            return Err(Exception::IllegalInstruction("LOAD"));
        }
        let addr = decode_imm_i(inst).wrapping_add(self.xregs.read(rs1));
        let size: u8 = if f3 == 0 || f3 == 4 {
            8
        } else if f3 == 1 || f3 == 5 {
            16
        } else {
            // The doubleword load is served as a 32-bit access.
            32
        };
        let raw = match self.bus.read(addr, size) {
            Ok(v) => v,
            Err(e) => return Err(e),
        };
        let val: u64 = if f3 == 0 {
            raw as i8 as i64 as u64
        } else if f3 == 1 {
            raw as i16 as i64 as u64
        } else if f3 == 2 {
            raw as i32 as i64 as u64
        } else {
            raw
        };
        self.xregs.write(rd, val);
        Ok(())
    }

    /// STORE: memory writes of each width.
    fn exec_store(&mut self, inst: u64) -> (r: Result<(), Exception>)
        requires
            old(self).wf(),
            inst < 0x1_0000_0000,
        ensures
            final(self).wf(),
            steps_to(old(self)@, step_store(old(self)@, inst), r, final(self)@),
    {
        let rs1 = inst / 0x8000 % 0x20;
        let rs2 = inst / 0x10_0000 % 0x20;
        let f3 = inst / 0x1000 % 8;
        if f3 >= 4 {
            return Err(Exception::IllegalInstruction("STORE"));
        }
        let addr = decode_imm_s(inst).wrapping_add(self.xregs.read(rs1));
        let b = self.xregs.read(rs2);
        let size: u8 = if f3 == 0 {
            8
        } else if f3 == 1 {
            16
        } else if f3 == 2 {
            32
        } else {
            64
        };
        match self.bus.write(addr, b, size) {
            Ok(()) => Ok(()),
            Err(e) => Err(e),
        }
    }

    /// SYSTEM: the CSR read-modify-write instructions. A write whose new
    /// value equals the old one is skipped, which no caller can observe.
    fn exec_system(&mut self, inst: u64) -> (r: Result<(), Exception>)
        requires
            old(self).wf(),
            inst < 0x1_0000_0000,
        ensures
            final(self).wf(),
            steps_to(old(self)@, step_system(old(self)@, inst), r, final(self)@),
    {
        let rd = inst / 0x80 % 0x20;
        let rs1 = inst / 0x8000 % 0x20;
        let f3 = inst / 0x1000 % 8;
        if f3 == 0 || f3 == 4 {
            return Err(Exception::IllegalInstruction("PRIV"));
        }
        let csr = inst / 0x10_0000;
        let prev = self.csrs.read(csr);
        let new_val: u64 = if f3 == 1 {
            self.xregs.read(rs1)
        } else if f3 == 2 {
            prev | self.xregs.read(rs1)
        } else if f3 == 3 {
            prev & !self.xregs.read(rs1)
        } else if f3 == 5 {
            rs1
        } else if f3 == 6 {
            prev | rs1
        } else {
            prev & !rs1
        };
        if new_val != prev {
            self.csrs.write(csr, new_val);
        } else {
            proof {
                assert(old(self)@.csrs.update(csr as int, new_val) =~= old(self)@.csrs);
            }
        }
        self.xregs.write(rd, prev);
        Ok(())
    }

    /// AMO: sequential read-modify-write on a memory word. The store
    /// happens before the destination register is written, so a faulting
    /// operation leaves the whole state unchanged.
    fn exec_amo(&mut self, inst: u64) -> (r: Result<(), Exception>)
        requires
            old(self).wf(),
            inst < 0x1_0000_0000,
        ensures
            final(self).wf(),
            steps_to(old(self)@, step_amo(old(self)@, inst), r, final(self)@),
    {
        let rd = inst / 0x80 % 0x20;
        let rs1 = inst / 0x8000 % 0x20;
        let rs2 = inst / 0x10_0000 % 0x20;
        let f3 = inst / 0x1000 % 8;
        let aop = inst / 0x200_0000 / 4;
        if !(f3 == 2 || f3 == 3) {
            return Err(Exception::IllegalInstruction("AMO width"));
        }
        let addr = self.xregs.read(rs1);
        let b = self.xregs.read(rs2);
        let size: u8 = if f3 == 2 {
            32
        } else {
            64
        };
        let raw = match self.bus.read(addr, size) {
            Ok(v) => v,
            Err(e) => return Err(e),
        };
        let old_v: u64 = if f3 == 2 {
            raw as i32 as i64 as u64
        } else {
            raw
        };
        let new: u64 = if aop == 2 || aop == 3 {
            // Load-reserved / store-conditional are not implemented.
            return Err(Exception::IllegalInstruction("LR/SC"));
        } else if aop == 1 {
            b
        } else if aop == 0 {
            old_v.wrapping_add(b)
        } else if aop == 4 {
            old_v ^ b
        } else if aop == 0xC {
            old_v & b
        } else if aop == 8 {
            old_v | b
        } else if aop == 0x10 {
            if slt_signed(old_v, b) {
                old_v
            } else {
                b
            }
        } else if aop == 0x14 {
            if slt_signed(old_v, b) {
                b
            } else {
                old_v
            }
        } else if aop == 0x18 {
            if old_v < b {
                old_v
            } else {
                b
            }
        } else if aop == 0x1C {
            if old_v < b {
                b
            } else {
                old_v
            }
        } else {
            return Err(Exception::IllegalInstruction("AMO"));
        };
        match self.bus.write(addr, new, size) {
            Ok(()) => {},
            Err(e) => return Err(e),
        }
        self.xregs.write(rd, old_v);
        Ok(())
    }

    /// Delivers a trap: exactly `trap_step` of the specification
    /// interpreter. Trap delivery itself cannot fail.
    pub fn handle_trap(&mut self, exception: Exception)
        requires
            old(self).wf(),
        ensures
            final(self).wf(),
            final(self)@ == trap_step(old(self)@, fault_of(exception)),
    {
        let code = exception.to_code();
        self.csrs.write(CSR_MCAUSE, code);
        self.csrs.write(CSR_MTVAL, 0);
        self.csrs.write(CSR_MEPC, self.pc);
        let mst = self.csrs.read(CSR_MSTATUS);
        let mb: u64 = match self.mode {
            Mode::User => 0,
            Mode::Supervisor => 1,
            Mode::Machine => 3,
        };
        self.csrs.write(CSR_MSTATUS, mst / 0x2000 * 0x2000 + mb * 0x800 + mst % 0x800);
        let mtvec = self.csrs.read(CSR_MTVEC);
        self.set_pc(mtvec);
        proof {
            assert(self@ =~= trap_step(old(self)@, fault_of(exception)));
        }
    }
}

} // verus!
