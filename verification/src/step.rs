//! The specification-level machine: a mathematical view of the whole
//! engine state and the interpreter that defines what one instruction
//! does to it.
//!
//! `cpu_step` is the contract of `Cpu::execute`: fetch a halfword at the
//! program counter, reject compressed encodings, fetch the full word,
//! dispatch on the opcode, and advance the program counter by four.
//! `trap_step` is the contract of `Cpu::handle_trap`.

use crate::bus::{bus_read_spec, bus_write_spec, BusView};
use crate::exception::{cause_of, fault_of, Exception, Fault};
use crate::isa::{
    csr_of, funct3_of, funct7_of, imm_b, imm_i, imm_j, imm_s, imm_u, opcode_of, rd_of, rs1_of,
    rs2_of, s64, sem_div, sem_divu, sem_divuw, sem_divw, sem_mulh, sem_mulhu, sem_rem, sem_remu,
    sem_remuw, sem_remw, shamt5_of, shamt6_of,
};
use crate::regs::{reg_write, CSR_MCAUSE, CSR_MEPC, CSR_MSTATUS, CSR_MTVAL, CSR_MTVEC};
use vstd::prelude::*;

verus! {

/// The privilege level. Execution starts in machine mode; a return from a
/// trap restores the mode recorded in the status CSR.
#[derive(Clone, Copy, Debug)]
pub enum Mode {
    User,
    Supervisor,
    Machine,
}

/// The architectural state of the engine: the register file, the CSR
/// file, the program counter, the privilege mode, and the state behind
/// the bus.
#[verifier::ext_equal]
pub struct CpuView {
    pub regs: Seq<u64>,
    pub csrs: Seq<u64>,
    pub pc: u64,
    pub mode: Mode,
    pub bus: BusView,
}

/// Sign extension of the low 32 bits, written as the cast chain the
/// engine computes.
pub open spec fn sext32c(x: u64) -> u64 {
    x as i32 as i64 as u64
}

/// Sign extension of the low 16 bits.
pub open spec fn sext16c(x: u64) -> u64 {
    x as i16 as i64 as u64
}

/// Sign extension of the low 8 bits.
pub open spec fn sext8c(x: u64) -> u64 {
    x as i8 as i64 as u64
}

/// The state with the destination register of `inst` set to `v`
/// (register 0 stays zero).
pub open spec fn with_rd(s: CpuView, inst: u64, v: u64) -> CpuView {
    CpuView { regs: reg_write(s.regs, rd_of(inst), v), ..s }
}

/// The ECALL trap kind for each privilege mode.
pub open spec fn ecall_fault(m: Mode) -> Fault {
    match m {
        Mode::User => Fault::ECallU,
        Mode::Supervisor => Fault::ECallS,
        Mode::Machine => Fault::ECallM,
    }
}

/// The two-bit encoding of a privilege mode, as recorded in the status
/// CSR's bits 12..11 when a trap is taken.
pub open spec fn mpp_bits(m: Mode) -> u64 {
    match m {
        Mode::User => 0,
        Mode::Supervisor => 1,
        Mode::Machine => 3,
    }
}

/// The privilege mode read back from a two-bit encoding; the reserved
/// encoding 2 reads as machine mode.
pub open spec fn mode_of_mpp(bits: int) -> Mode {
    if bits == 0 {
        Mode::User
    } else if bits == 1 {
        Mode::Supervisor
    } else {
        Mode::Machine
    }
}

/// The status CSR with its bits 12..11 replaced by the encoding of `m`.
pub open spec fn set_mpp(mstatus: u64, m: Mode) -> u64 {
    (mstatus as int / 0x2000 * 0x2000 + mpp_bits(m) * 0x800 + mstatus as int % 0x800) as u64
}

// --- Per-opcode-family transitions ---

/// OP (register-register, 64-bit): the base arithmetic/logic operations
/// and the multiply/divide extension.
pub open spec fn step_op(s: CpuView, inst: u64) -> Result<CpuView, Fault> {
    let a = s.regs[rs1_of(inst) as int];
    let b = s.regs[rs2_of(inst) as int];
    match (funct3_of(inst), funct7_of(inst)) {
        (0, 0) => Ok(with_rd(s, inst, a.wrapping_add(b))),
        (0, 0x20) => Ok(with_rd(s, inst, a.wrapping_sub(b))),
        (1, 0) => Ok(with_rd(s, inst, a << (b % 64))),
        (2, 0) => Ok(with_rd(s, inst, if s64(a) < s64(b) { 1u64 } else { 0u64 })),
        (3, 0) => Ok(with_rd(s, inst, if a < b { 1u64 } else { 0u64 })),
        (4, 0) => Ok(with_rd(s, inst, a ^ b)),
        (5, 0) => Ok(with_rd(s, inst, a >> (b % 64))),
        (5, 0x20) => Ok(with_rd(s, inst, ((a as i64) >> (b % 64)) as u64)),
        (6, 0) => Ok(with_rd(s, inst, a | b)),
        (7, 0) => Ok(with_rd(s, inst, a & b)),
        (0, 1) => Ok(with_rd(s, inst, a.wrapping_mul(b))),
        (1, 1) => Ok(with_rd(s, inst, sem_mulh(a, b))),
        (3, 1) => Ok(with_rd(s, inst, sem_mulhu(a, b))),
        (4, 1) => Ok(with_rd(s, inst, sem_div(a, b))),
        (5, 1) => Ok(with_rd(s, inst, sem_divu(a, b))),
        (6, 1) => Ok(with_rd(s, inst, sem_rem(a, b))),
        (7, 1) => Ok(with_rd(s, inst, sem_remu(a, b))),
        _ => Err(Fault::Illegal),
    }
}

/// OP-32 ("W" variants): 32-bit operations whose results are
/// sign-extended to 64 bits; shift amounts use five bits.
pub open spec fn step_op32(s: CpuView, inst: u64) -> Result<CpuView, Fault> {
    let a = s.regs[rs1_of(inst) as int];
    let b = s.regs[rs2_of(inst) as int];
    match (funct3_of(inst), funct7_of(inst)) {
        (0, 0) => Ok(with_rd(s, inst, sext32c(a.wrapping_add(b)))),
        (0, 0x20) => Ok(with_rd(s, inst, sext32c(a.wrapping_sub(b)))),
        (1, 0) => Ok(with_rd(s, inst, sext32c(a << (b % 32)))),
        (5, 0) => Ok(with_rd(s, inst, sext32c((a % 0x1_0000_0000) >> (b % 32)))),
        (5, 0x20) => Ok(with_rd(s, inst, sext32c(((sext32c(a) as i64) >> (b % 32)) as u64))),
        (0, 1) => Ok(with_rd(s, inst, sext32c(a.wrapping_mul(b)))),
        (4, 1) => Ok(with_rd(s, inst, sem_divw(a, b))),
        (5, 1) => Ok(with_rd(s, inst, sem_divuw(a, b))),
        (6, 1) => Ok(with_rd(s, inst, sem_remw(a, b))),
        (7, 1) => Ok(with_rd(s, inst, sem_remuw(a, b))),
        _ => Err(Fault::Illegal),
    }
}

/// OP-IMM: immediate arithmetic/logic; the shift amount sits in bits
/// 25..20, and for right shifts bits 31..26 select logical or arithmetic.
pub open spec fn step_opimm(s: CpuView, inst: u64) -> Result<CpuView, Fault> {
    let a = s.regs[rs1_of(inst) as int];
    let imm = imm_i(inst);
    let f7 = funct7_of(inst);
    match funct3_of(inst) {
        0 => Ok(with_rd(s, inst, a.wrapping_add(imm))),
        1 => if f7 == 0 || f7 == 1 {
            Ok(with_rd(s, inst, a << shamt6_of(inst)))
        } else {
            Err(Fault::Illegal)
        },
        2 => Ok(with_rd(s, inst, if s64(a) < s64(imm) { 1u64 } else { 0u64 })),
        3 => Ok(with_rd(s, inst, if a < imm { 1u64 } else { 0u64 })),
        4 => Ok(with_rd(s, inst, a ^ imm)),
        5 => if f7 == 0 || f7 == 1 {
            Ok(with_rd(s, inst, a >> shamt6_of(inst)))
        } else if f7 == 0x20 || f7 == 0x21 {
            Ok(with_rd(s, inst, ((a as i64) >> shamt6_of(inst)) as u64))
        } else {
            Err(Fault::Illegal)
        },
        6 => Ok(with_rd(s, inst, a | imm)),
        7 => Ok(with_rd(s, inst, a & imm)),
        _ => Err(Fault::Illegal),
    }
}

/// OP-IMM-32: immediate "W" operations on the low 32 bits, results
/// sign-extended; five-bit shift amounts.
pub open spec fn step_opimm32(s: CpuView, inst: u64) -> Result<CpuView, Fault> {
    let a = s.regs[rs1_of(inst) as int];
    let imm = imm_i(inst);
    let f7 = funct7_of(inst);
    match funct3_of(inst) {
        0 => Ok(with_rd(s, inst, sext32c(a.wrapping_add(imm)))),
        1 => if f7 == 0 {
            Ok(with_rd(s, inst, sext32c(a << shamt5_of(inst))))
        } else {
            Err(Fault::Illegal)
        },
        5 => if f7 == 0 {
            Ok(with_rd(s, inst, sext32c((a % 0x1_0000_0000) >> shamt5_of(inst))))
        } else if f7 == 0x20 {
            Ok(with_rd(s, inst, sext32c(((sext32c(a) as i64) >> shamt5_of(inst)) as u64)))
        } else {
            Err(Fault::Illegal)
        },
        _ => Err(Fault::Illegal),
    }
}

/// LUI: the destination receives the U-type immediate.
pub open spec fn step_lui(s: CpuView, inst: u64) -> Result<CpuView, Fault> {
    Ok(with_rd(s, inst, imm_u(inst)))
}

/// AUIPC: the destination receives the program counter plus the U-type
/// immediate.
pub open spec fn step_auipc(s: CpuView, inst: u64) -> Result<CpuView, Fault> {
    Ok(with_rd(s, inst, s.pc.wrapping_add(imm_u(inst))))
}

/// JAL: link to rd, then jump. The target is biased by minus four because
/// the engine adds four after every instruction.
pub open spec fn step_jal(s: CpuView, inst: u64) -> Result<CpuView, Fault> {
    let s1 = with_rd(s, inst, s.pc.wrapping_add(4));
    Ok(CpuView { pc: s.pc.wrapping_add(imm_j(inst)).wrapping_sub(4), ..s1 })
}

/// JALR: jump to rs1 plus the I-type immediate with the low target bit
/// cleared, linking to rd. The target uses the value rs1 held before the
/// link register is written, so a jump through the link register lands
/// on the old link value.
pub open spec fn step_jalr(s: CpuView, inst: u64) -> Result<CpuView, Fault> {
    let t = imm_i(inst).wrapping_add(s.regs[rs1_of(inst) as int]);
    let s1 = with_rd(s, inst, s.pc.wrapping_add(4));
    Ok(CpuView { pc: t.wrapping_sub(4) & 0xFFFF_FFFF_FFFF_FFFE, ..s1 })
}

/// The comparison a branch instruction evaluates, by its funct3 field.
pub open spec fn branch_taken(f3: u64, a: u64, b: u64) -> Result<bool, Fault> {
    match f3 {
        0 => Ok(a == b),
        1 => Ok(a != b),
        4 => Ok(s64(a) < s64(b)),
        5 => Ok(s64(a) >= s64(b)),
        6 => Ok(a < b),
        7 => Ok(a >= b),
        _ => Err(Fault::Illegal),
    }
}

/// BRANCH: on a taken branch the program counter moves by the B-type
/// immediate (biased by minus four); otherwise nothing changes.
pub open spec fn step_branch(s: CpuView, inst: u64) -> Result<CpuView, Fault> {
    let a = s.regs[rs1_of(inst) as int];
    let b = s.regs[rs2_of(inst) as int];
    match branch_taken(funct3_of(inst), a, b) {
        Err(f) => Err(f),
        Ok(taken) => if taken {
            Ok(CpuView { pc: s.pc.wrapping_add(imm_b(inst)).wrapping_sub(4), ..s })
        } else {
            Ok(s)
        },
    }
}

/// LOAD: reads at rs1 plus the I-type immediate; signed variants
/// sign-extend, unsigned variants zero-extend. The doubleword load is
/// served as a 32-bit access.
pub open spec fn step_load(s: CpuView, inst: u64) -> Result<CpuView, Fault> {
    let addr = imm_i(inst).wrapping_add(s.regs[rs1_of(inst) as int]);
    let f3 = funct3_of(inst);
    if f3 == 0 {
        match bus_read_spec(s.bus, addr, 8) {
            Ok(v) => Ok(with_rd(s, inst, sext8c(v))),
            Err(f) => Err(f),
        }
    } else if f3 == 1 {
        match bus_read_spec(s.bus, addr, 16) {
            Ok(v) => Ok(with_rd(s, inst, sext16c(v))),
            Err(f) => Err(f),
        }
    } else if f3 == 2 {
        match bus_read_spec(s.bus, addr, 32) {
            Ok(v) => Ok(with_rd(s, inst, sext32c(v))),
            Err(f) => Err(f),
        }
    } else if f3 == 3 {
        match bus_read_spec(s.bus, addr, 32) {
            Ok(v) => Ok(with_rd(s, inst, v)),
            Err(f) => Err(f),
        }
    } else if f3 == 4 {
        match bus_read_spec(s.bus, addr, 8) {
            Ok(v) => Ok(with_rd(s, inst, v)),
            Err(f) => Err(f),
        }
    } else if f3 == 5 {
        match bus_read_spec(s.bus, addr, 16) {
            Ok(v) => Ok(with_rd(s, inst, v)),
            Err(f) => Err(f),
        }
    } else if f3 == 6 {
        match bus_read_spec(s.bus, addr, 32) {
            Ok(v) => Ok(with_rd(s, inst, v)),
            Err(f) => Err(f),
        }
    } else {
        Err(Fault::Illegal)
    }
}

/// STORE: writes the low bits of rs2 at rs1 plus the S-type immediate.
pub open spec fn step_store(s: CpuView, inst: u64) -> Result<CpuView, Fault> {
    let addr = imm_s(inst).wrapping_add(s.regs[rs1_of(inst) as int]);
    let b = s.regs[rs2_of(inst) as int];
    let f3 = funct3_of(inst);
    let size: u8 = if f3 == 0 {
        8u8
    } else if f3 == 1 {
        16u8
    } else if f3 == 2 {
        32u8
    } else {
        64u8
    };
    if f3 < 4 {
        match bus_write_spec(s.bus, addr, b, size) {
            Ok(b2) => Ok(CpuView { bus: b2, ..s }),
            Err(f) => Err(f),
        }
    } else {
        Err(Fault::Illegal)
    }
}

/// SYSTEM (CSR instructions): a read-modify-write on the CSR named in
/// bits 31..20; the destination receives the previous CSR value. The
/// immediate forms use the rs1 field itself as a five-bit operand.
pub open spec fn step_system(s: CpuView, inst: u64) -> Result<CpuView, Fault> {
    let csr = csr_of(inst);
    let prev = s.csrs[csr as int];
    let rv = s.regs[rs1_of(inst) as int];
    let zimm = rs1_of(inst);
    let f3 = funct3_of(inst);
    if f3 == 1 || f3 == 2 || f3 == 3 || f3 == 5 || f3 == 6 || f3 == 7 {
        let new = if f3 == 1 {
            rv
        } else if f3 == 2 {
            prev | rv
        } else if f3 == 3 {
            prev & !rv
        } else if f3 == 5 {
            zimm
        } else if f3 == 6 {
            prev | zimm
        } else {
            prev & !zimm
        };
        Ok(
            CpuView {
                csrs: s.csrs.update(csr as int, new),
                regs: reg_write(s.regs, rd_of(inst), prev),
                ..s
            },
        )
    } else {
        Err(Fault::Illegal)
    }
}

/// The new memory value an atomic memory operation computes from the old
/// value and rs2.
pub open spec fn amo_new_value(aop: u64, old_v: u64, b: u64) -> Result<u64, Fault> {
    match aop {
        1 => Ok(b),
        0 => Ok(old_v.wrapping_add(b)),
        4 => Ok(old_v ^ b),
        0xC => Ok(old_v & b),
        8 => Ok(old_v | b),
        0x10 => Ok(if s64(old_v) < s64(b) { old_v } else { b }),
        0x14 => Ok(if s64(old_v) < s64(b) { b } else { old_v }),
        0x18 => Ok(if old_v < b { old_v } else { b }),
        0x1C => Ok(if old_v < b { b } else { old_v }),
        _ => Err(Fault::Illegal),
    }
}

/// AMO: load the old value from the address in rs1, store the combined
/// value back, and leave the old value in rd. The 32-bit forms
/// sign-extend the old value and store the low 32 bits of the new one.
/// Load-reserved and store-conditional are not implemented and fail as
/// illegal.
pub open spec fn step_amo(s: CpuView, inst: u64) -> Result<CpuView, Fault> {
    let addr = s.regs[rs1_of(inst) as int];
    let b = s.regs[rs2_of(inst) as int];
    let f3 = funct3_of(inst);
    let aop = funct7_of(inst) / 4;
    if f3 == 2 || f3 == 3 {
        let size: u8 = if f3 == 2 {
            32u8
        } else {
            64u8
        };
        match bus_read_spec(s.bus, addr, size) {
            Err(f) => Err(f),
            Ok(raw) => {
                let old_v = if f3 == 2 {
                    sext32c(raw)
                } else {
                    raw
                };
                match amo_new_value(aop, old_v, b) {
                    Err(f) => Err(f),
                    Ok(new) => match bus_write_spec(s.bus, addr, new, size) {
                        Err(f) => Err(f),
                        Ok(b2) => Ok(
                            CpuView {
                                bus: b2,
                                regs: reg_write(s.regs, rd_of(inst), old_v),
                                ..s
                            },
                        ),
                    },
                }
            },
        }
    } else {
        Err(Fault::Illegal)
    }
}

/// MRET: return from a trap. The program counter moves to the exception
/// program counter (biased by minus four), and the privilege mode is
/// restored from the status CSR's saved-mode bits.
pub open spec fn step_mret(s: CpuView) -> Result<CpuView, Fault> {
    let mpp = s.csrs[CSR_MSTATUS as int] as int / 0x800 % 4;
    Ok(
        CpuView {
            pc: s.csrs[CSR_MEPC as int].wrapping_sub(4),
            mode: mode_of_mpp(mpp),
            ..s
        },
    )
}

/// One decoded 32-bit instruction against the machine state. The MRET,
/// ECALL and WFI words are matched before generic opcode dispatch; WFI is
/// unsupported (no interrupt source is modeled) and fails explicitly
/// rather than blocking.
pub open spec fn step32(s: CpuView, inst: u64) -> Result<CpuView, Fault> {
    if inst == 0x3020_0073 {
        step_mret(s)
    } else if inst == 0x0000_0073 {
        Err(ecall_fault(s.mode))
    } else if inst == 0x1050_0073 {
        Err(Fault::Illegal)
    } else {
        match opcode_of(inst) {
            0x33 => step_op(s, inst),
            0x3B => step_op32(s, inst),
            0x13 => step_opimm(s, inst),
            0x1B => step_opimm32(s, inst),
            0x37 => step_lui(s, inst),
            0x17 => step_auipc(s, inst),
            0x6F => step_jal(s, inst),
            0x67 => step_jalr(s, inst),
            0x63 => step_branch(s, inst),
            0x03 => step_load(s, inst),
            0x23 => step_store(s, inst),
            0x0F => Ok(s),  // MISC-MEM (FENCE): a no-op
            0x73 => step_system(s, inst),
            0x2F => step_amo(s, inst),
            _ => Err(Fault::Illegal),
        }
    }
}

/// One full engine step: fetch a halfword at the program counter; a
/// low-bit pattern of 11 selects a full 32-bit fetch and decode, anything
/// else is an unsupported compressed (or all-zero) encoding; after a
/// successful instruction the program counter advances by four.
pub open spec fn cpu_step(s: CpuView) -> Result<CpuView, Fault> {
    match bus_read_spec(s.bus, s.pc, 16) {
        Err(f) => Err(f),
        Ok(h) => if h % 4 == 3 {
            match bus_read_spec(s.bus, s.pc, 32) {
                Err(f) => Err(f),
                Ok(inst) => match step32(s, inst) {
                    Ok(s2) => Ok(CpuView { pc: s2.pc.wrapping_add(4), ..s2 }),
                    Err(f) => Err(f),
                },
            }
        } else {
            Err(Fault::Illegal)
        },
    }
}

/// Trap delivery: the cause code goes to the cause CSR, zero to the trap
/// value CSR, the faulting program counter to the exception program
/// counter CSR, the current privilege mode into the status CSR's
/// saved-mode bits, and the program counter moves to the trap vector.
pub open spec fn trap_step(s: CpuView, f: Fault) -> CpuView {
    let csrs2 = s.csrs.update(CSR_MCAUSE as int, cause_of(f)).update(
        CSR_MTVAL as int,
        0u64,
    ).update(CSR_MEPC as int, s.pc).update(
        CSR_MSTATUS as int,
        set_mpp(s.csrs[CSR_MSTATUS as int], s.mode),
    );
    CpuView { csrs: csrs2, pc: s.csrs[CSR_MTVEC as int], ..s }
}

/// Relates one executable step to the interpreter: on success the state
/// becomes the interpreter's next state; on failure the trap kind matches
/// and the state is unchanged.
pub open spec fn steps_to(
    pre: CpuView,
    sr: Result<CpuView, Fault>,
    r: Result<(), Exception>,
    post: CpuView,
) -> bool {
    match r {
        Ok(()) => sr is Ok && post == sr->Ok_0,
        Err(e) => sr is Err && fault_of(e) == sr->Err_0 && post == pre,
    }
}

} // verus!
