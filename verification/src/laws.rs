//! Laws of the machine, stated against the specification interpreter and
//! proved once for all inputs: the hardwired zero register, the
//! store-then-load round trip, faulting of unmapped accesses, the purity
//! of a CSR set with a zero mask, trap delivery for illegal instructions,
//! and the atomic add.

use crate::bus::{
    bus_read_spec, bus_write_spec, in_clint, in_dram, in_dtb, in_uart, BusView, DRAM_START,
};
use crate::bytes::{le_value, lemma_le_roundtrip, lemma_le_store_frame, lemma_le_value_bound,
    lemma_width_pow2};
use crate::exception::{cause_of, fault_of, Exception, Fault};
use crate::isa::{csr_of, funct3_of, funct7_of, opcode_of, rd_of, rs1_of, rs2_of};
use crate::regs::{reg_write, CSR_MCAUSE, CSR_MEPC, CSR_MTVEC};
use crate::step::{step32, trap_step, CpuView};
use vstd::arithmetic::power2::pow2;
use vstd::prelude::*;

verus! {

/// Register 0 is hardwired to zero: whatever is written to whatever
/// register — in particular to register 0 itself — a subsequent read of
/// register 0 yields zero.
pub proof fn lemma_reg_zero_pinned(regs: Seq<u64>, index: u64, value: u64)
    requires
        regs.len() == 32,
        regs[0] == 0,
        index < 32,
    ensures
        reg_write(regs, index, value)[0] == 0,
{
}

/// Store-then-load round trip: after a 32-bit word `v` is stored at a
/// main-memory address, a 32-bit load from the same address returns `v`.
pub proof fn lemma_store_load_roundtrip(b: BusView, addr: u64, v: u64)
    requires
        in_dram(addr),
        addr - DRAM_START + 4 <= b.dram.len(),
        v < 0x1_0000_0000,
    ensures
        bus_write_spec(b, addr, v, 32) matches Ok(b2) && bus_read_spec(b2, addr, 32)
            == Ok::<u64, Fault>(v),
{
    let local = addr - DRAM_START;
    lemma_le_store_frame(b.dram, local, 4, v);
    lemma_le_roundtrip(b.dram, local, 4, v);
    lemma_width_pow2();
    let st = crate::bytes::le_store(b.dram, local, 4, v);
    assert(le_value(st, local, 4) == v as int % pow2(32) as int);
}

/// An access to an address outside every mapped region fails with the
/// matching access fault. The executable contracts of `Bus::write` and
/// `Cpu::execute` add the other half of the property: on any failure the
/// machine state is unchanged.
pub proof fn lemma_unmapped_access_faults(b: BusView, addr: u64, value: u64, size: u8)
    requires
        !in_dtb(addr),
        !in_uart(addr),
        !in_clint(addr),
        !in_dram(addr),
    ensures
        bus_read_spec(b, addr, size) == Err::<u64, Fault>(Fault::LoadAccess),
        bus_write_spec(b, addr, value, size) == Err::<BusView, Fault>(Fault::StoreAccess),
{
}

/// CSRRS with rs1 = x0 is a pure read: the destination register receives
/// the CSR's previous value and no state but that register changes.
#[verifier::rlimit(100)]
pub proof fn lemma_csrrs_x0_pure(s: CpuView, inst: u64)
    requires
        s.regs.len() == 32,
        s.regs[0] == 0,
        s.csrs.len() == 4096,
        inst < 0x1_0000_0000,
        opcode_of(inst) == 0x73,
        funct3_of(inst) == 2,
        rs1_of(inst) == 0,
    ensures
        step32(s, inst) matches Ok(s2) && s2 == (CpuView {
            regs: reg_write(s.regs, rd_of(inst), s.csrs[csr_of(inst) as int]),
            ..s
        }),
{
    assert(funct3_of(0x3020_0073u64) == 0);
    assert(funct3_of(0x0000_0073u64) == 0);
    assert(funct3_of(0x1050_0073u64) == 0);
    let prev = s.csrs[csr_of(inst) as int];
    assert(prev | 0u64 == prev) by (bit_vector);
    assert(s.csrs.update(csr_of(inst) as int, prev) =~= s.csrs);
    assert(step32(s, inst)->Ok_0 =~= (CpuView {
        regs: reg_write(s.regs, rd_of(inst), s.csrs[csr_of(inst) as int]),
        ..s
    }));
}

/// Delivering an illegal-instruction trap writes cause code 2 to the
/// cause CSR, the faulting program counter to the exception program
/// counter CSR, and moves the program counter to the trap vector.
pub proof fn lemma_illegal_trap(s: CpuView, e: Exception)
    requires
        s.csrs.len() == 4096,
        e is IllegalInstruction,
    ensures
        cause_of(fault_of(e)) == 2,
        trap_step(s, fault_of(e)).csrs[CSR_MCAUSE as int] == 2,
        trap_step(s, fault_of(e)).csrs[CSR_MEPC as int] == s.pc,
        trap_step(s, fault_of(e)).pc == s.csrs[CSR_MTVEC as int],
{
}

/// AMOADD on a doubleword: the memory word that held `n` holds
/// `n + m` afterwards (two's-complement wraparound), where `m` is the
/// value of rs2, and the destination register receives the original `n`.
#[verifier::rlimit(100)]
pub proof fn lemma_amoadd(s: CpuView, inst: u64)
    requires
        s.regs.len() == 32,
        s.regs[0] == 0,
        inst < 0x1_0000_0000,
        opcode_of(inst) == 0x2F,
        funct3_of(inst) == 3,
        funct7_of(inst) / 4 == 0,
        in_dram(s.regs[rs1_of(inst) as int]),
        s.regs[rs1_of(inst) as int] - DRAM_START + 8 <= s.bus.dram.len(),
    ensures
        step32(s, inst) matches Ok(s2) && {
            let local = s.regs[rs1_of(inst) as int] - DRAM_START;
            let n = le_value(s.bus.dram, local, 8) as u64;
            let m = s.regs[rs2_of(inst) as int];
            le_value(s2.bus.dram, local, 8) == n.wrapping_add(m) && s2.regs == reg_write(
                s.regs,
                rd_of(inst),
                n,
            )
        },
{
    assert(opcode_of(0x3020_0073u64) == 0x73);
    assert(opcode_of(0x0000_0073u64) == 0x73);
    assert(opcode_of(0x1050_0073u64) == 0x73);
    let addr = s.regs[rs1_of(inst) as int];
    let local = addr - DRAM_START;
    lemma_le_value_bound(s.bus.dram, local, 8);
    lemma_width_pow2();
    let n = le_value(s.bus.dram, local, 8) as u64;
    let m = s.regs[rs2_of(inst) as int];
    let new = n.wrapping_add(m);
    lemma_le_roundtrip(s.bus.dram, local, 8, new);
}

} // verus!
