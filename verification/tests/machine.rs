//! Instruction-level scenarios: each test boots a fresh engine, places a
//! small program in main memory (or the boot ROM), runs it, and checks
//! the architectural state.

use rv64emu::bus::{DRAM_START, DTB_START};
use rv64emu::cpu::Cpu;
use rv64emu::exception::Exception;
use rv64emu::isa::{div_signed, div_unsigned, rem_signed, rem_unsigned};
use rv64emu::isa::{div_signed_w, div_unsigned_w, rem_signed_w, rem_unsigned_w};

fn rtype(f7: u32, rs2: u32, rs1: u32, f3: u32, rd: u32, op: u32) -> u32 {
    (f7 << 25) | (rs2 << 20) | (rs1 << 15) | (f3 << 12) | (rd << 7) | op
}

fn itype(imm: u32, rs1: u32, f3: u32, rd: u32, op: u32) -> u32 {
    ((imm & 0xFFF) << 20) | (rs1 << 15) | (f3 << 12) | (rd << 7) | op
}

fn stype(imm: u32, rs2: u32, rs1: u32, f3: u32) -> u32 {
    let imm = imm & 0xFFF;
    ((imm >> 5) << 25) | (rs2 << 20) | (rs1 << 15) | (f3 << 12) | ((imm & 0x1F) << 7) | 0x23
}

fn prog_bytes(words: &[u32]) -> Vec<u8> {
    let mut v = Vec::new();
    for w in words {
        v.extend_from_slice(&w.to_le_bytes());
    }
    v
}

/// A fresh engine with `words` loaded at the start of main memory and the
/// program counter pointing there.
fn boot(words: &[u32]) -> Cpu {
    let mut cpu = Cpu::new();
    cpu.bus.dram.load(&prog_bytes(words));
    cpu.set_pc(DRAM_START);
    cpu
}

#[test]
fn x0_write_reads_zero() {
    let mut cpu = Cpu::new();
    cpu.write_reg(0, 0xDEAD_BEEF);
    assert_eq!(cpu.read_reg(0), 0);
}

#[test]
fn x0_stays_zero_through_addi() {
    // ADDI x0, x0, 7 must leave register 0 at zero.
    let mut cpu = boot(&[itype(7, 0, 0, 0, 0x13)]);
    cpu.execute().unwrap();
    assert_eq!(cpu.read_reg(0), 0);
}

#[test]
fn addi_x0_imm5_leaves_rd_5() {
    // ADDI x5, x0, 5
    let mut cpu = boot(&[0x00500293]);
    cpu.execute().unwrap();
    assert_eq!(cpu.read_reg(5), 5);
    assert_eq!(cpu.pc(), DRAM_START + 4);
}

#[test]
fn lb_sign_extends_ff_to_minus_one() {
    // LB x6, 0(x1) of a 0xFF byte yields all ones.
    let mut cpu = boot(&[itype(0, 1, 0, 6, 0x03)]);
    let addr = DRAM_START + 0x100;
    cpu.bus.write(addr, 0xFF, 8).unwrap();
    cpu.write_reg(1, addr);
    cpu.execute().unwrap();
    assert_eq!(cpu.read_reg(6), 0xFFFF_FFFF_FFFF_FFFF);
}

#[test]
fn lbu_zero_extends() {
    // LBU x6, 0(x1) of a 0xFF byte yields 0xFF.
    let mut cpu = boot(&[itype(0, 1, 4, 6, 0x03)]);
    let addr = DRAM_START + 0x100;
    cpu.bus.write(addr, 0xFF, 8).unwrap();
    cpu.write_reg(1, addr);
    cpu.execute().unwrap();
    assert_eq!(cpu.read_reg(6), 0xFF);
}

#[test]
fn lui_sign_extends_top_bit() {
    // LUI x7, 0x80000
    let mut cpu = boot(&[0x800003B7]);
    cpu.execute().unwrap();
    assert_eq!(cpu.read_reg(7), 0xFFFF_FFFF_8000_0000);
}

#[test]
fn lui_plain_pattern() {
    // LUI x7, 0x12345
    let mut cpu = boot(&[0x123453B7]);
    cpu.execute().unwrap();
    assert_eq!(cpu.read_reg(7), 0x0000_0000_1234_5000);
}

#[test]
fn auipc_adds_to_pc() {
    // AUIPC x5, 0x1 => pc + 0x1000
    let mut cpu = boot(&[(1 << 12) | (5 << 7) | 0x17]);
    cpu.execute().unwrap();
    assert_eq!(cpu.read_reg(5), DRAM_START + 0x1000);
}

#[test]
fn store_then_load_word_through_instructions() {
    // SW x2, 8(x1); LW x3, 8(x1)
    let mut cpu = boot(&[stype(8, 2, 1, 2), itype(8, 1, 2, 3, 0x03)]);
    cpu.write_reg(1, DRAM_START + 0x200);
    cpu.write_reg(2, 0xDEAD_BEEF);
    cpu.execute().unwrap();
    cpu.execute().unwrap();
    assert_eq!(cpu.read_reg(3), 0xFFFF_FFFF_DEAD_BEEF); // LW sign-extends
    assert_eq!(
        cpu.bus.read(DRAM_START + 0x208, 32).unwrap(),
        0xDEAD_BEEF
    );
}

#[test]
fn csrrs_with_x0_is_pure_read() {
    // CSRRS x5, 0x340, x0
    let mut cpu = boot(&[0x340022F3]);
    cpu.write_csr(0x340, 0xABCD);
    cpu.execute().unwrap();
    assert_eq!(cpu.read_reg(5), 0xABCD);
    assert_eq!(cpu.read_csr(0x340), 0xABCD);
}

#[test]
fn csrrw_swaps() {
    // CSRRW x5, 0x340, x1
    let mut cpu = boot(&[itype(0x340, 1, 1, 5, 0x73)]);
    cpu.write_csr(0x340, 111);
    cpu.write_reg(1, 222);
    cpu.execute().unwrap();
    assert_eq!(cpu.read_reg(5), 111);
    assert_eq!(cpu.read_csr(0x340), 222);
}

#[test]
fn csrrc_clears_mask_bits() {
    // CSRRC x5, 0x340, x1
    let mut cpu = boot(&[itype(0x340, 1, 3, 5, 0x73)]);
    cpu.write_csr(0x340, 0b1111);
    cpu.write_reg(1, 0b0101);
    cpu.execute().unwrap();
    assert_eq!(cpu.read_reg(5), 0b1111);
    assert_eq!(cpu.read_csr(0x340), 0b1010);
}

#[test]
fn csrrwi_uses_field_as_value() {
    // CSRRWI x5, 0x340, 9 (rs1 field holds the immediate)
    let mut cpu = boot(&[itype(0x340, 9, 5, 5, 0x73)]);
    cpu.write_csr(0x340, 7);
    cpu.execute().unwrap();
    assert_eq!(cpu.read_reg(5), 7);
    assert_eq!(cpu.read_csr(0x340), 9);
}

#[test]
fn illegal_instruction_trap_delivery() {
    let mut cpu = boot(&[0xFFFF_FFFF]);
    cpu.write_csr(0x305, 0x8000_0200); // trap vector
    let e = cpu.execute().unwrap_err();
    assert_eq!(e.to_code(), 2);
    assert_eq!(cpu.pc(), DRAM_START); // state unchanged on the fault
    cpu.handle_trap(e);
    assert_eq!(cpu.read_csr(0x342), 2); // cause
    assert_eq!(cpu.read_csr(0x341), DRAM_START); // exception pc
    assert_eq!(cpu.read_csr(0x343), 0); // trap value
    assert_eq!(cpu.pc(), 0x8000_0200); // redirected to the vector
}

#[test]
fn amoadd_d_returns_old_and_adds() {
    // AMOADD.D x6, x12, (x11)
    let mut cpu = boot(&[rtype(0, 12, 11, 3, 6, 0x2F)]);
    let addr = DRAM_START + 0x200;
    cpu.bus.write(addr, 41, 64).unwrap();
    cpu.write_reg(11, addr);
    cpu.write_reg(12, 9);
    cpu.execute().unwrap();
    assert_eq!(cpu.read_reg(6), 41);
    assert_eq!(cpu.bus.read(addr, 64).unwrap(), 50);
}

#[test]
fn amoadd_d_wraps_two_complement() {
    let mut cpu = boot(&[rtype(0, 12, 11, 3, 6, 0x2F)]);
    let addr = DRAM_START + 0x200;
    cpu.bus.write(addr, u64::MAX, 64).unwrap();
    cpu.write_reg(11, addr);
    cpu.write_reg(12, 2);
    cpu.execute().unwrap();
    assert_eq!(cpu.read_reg(6), u64::MAX);
    assert_eq!(cpu.bus.read(addr, 64).unwrap(), 1);
}

#[test]
fn amoswap_w_sign_extends_old() {
    // AMOSWAP.W x6, x12, (x11): funct7 = 1 << 2
    let mut cpu = boot(&[rtype(0x04, 12, 11, 2, 6, 0x2F)]);
    let addr = DRAM_START + 0x200;
    cpu.bus.write(addr, 0x8000_0001, 32).unwrap();
    cpu.write_reg(11, addr);
    cpu.write_reg(12, 0x55);
    cpu.execute().unwrap();
    assert_eq!(cpu.read_reg(6), 0xFFFF_FFFF_8000_0001);
    assert_eq!(cpu.bus.read(addr, 32).unwrap(), 0x55);
}

#[test]
fn lr_sc_fail_explicitly() {
    // LR.D encoding: funct7 top bits 00010
    let mut cpu = boot(&[rtype(0x08, 0, 11, 3, 6, 0x2F)]);
    cpu.write_reg(11, DRAM_START + 0x200);
    let e = cpu.execute().unwrap_err();
    assert!(matches!(e, Exception::IllegalInstruction(_)));
}

#[test]
fn beq_taken_with_offset_8() {
    // BEQ x0, x0, +8 placed at address 0x1000 (the boot ROM base).
    let mut cpu = Cpu::new();
    cpu.bus.dtb.load(&prog_bytes(&[0x00000463]));
    cpu.set_pc(DTB_START);
    cpu.execute().unwrap();
    assert_eq!(cpu.pc(), 0x1008);
}

#[test]
fn bne_not_taken_falls_through() {
    // BNE x0, x0, +8
    let mut cpu = boot(&[(1 << 12) | (4 << 7) | 0x63]);
    cpu.execute().unwrap();
    assert_eq!(cpu.pc(), DRAM_START + 4);
}

#[test]
fn blt_signed_vs_bltu_unsigned() {
    // x1 = -1, x2 = 1: BLT x1, x2 taken; BLTU x1, x2 not taken.
    let blt = rtype(0, 2, 1, 4, 8, 0x63); // rd field carries imm[4:1]|imm[11]; offset 8
    let mut cpu = boot(&[blt]);
    cpu.write_reg(1, u64::MAX);
    cpu.write_reg(2, 1);
    cpu.execute().unwrap();
    assert_eq!(cpu.pc(), DRAM_START + 8);

    let bltu = rtype(0, 2, 1, 6, 8, 0x63);
    let mut cpu2 = boot(&[bltu]);
    cpu2.write_reg(1, u64::MAX);
    cpu2.write_reg(2, 1);
    cpu2.execute().unwrap();
    assert_eq!(cpu2.pc(), DRAM_START + 4);
}

#[test]
fn jal_links_and_jumps() {
    // JAL x1, +16: imm[10:1] = 8 sits at bits 30..21
    let mut cpu = boot(&[(8 << 21) | (1 << 7) | 0x6F]);
    cpu.execute().unwrap();
    assert_eq!(cpu.read_reg(1), DRAM_START + 4);
    assert_eq!(cpu.pc(), DRAM_START + 16);
}

#[test]
fn jalr_clears_low_bit() {
    // JALR x1, 3(x2) with x2 even: the target's low bit is cleared.
    let mut cpu = boot(&[itype(3, 2, 0, 1, 0x67)]);
    cpu.write_reg(2, DRAM_START + 0x40);
    cpu.execute().unwrap();
    assert_eq!(cpu.read_reg(1), DRAM_START + 4);
    assert_eq!(cpu.pc(), DRAM_START + 0x42);
}

#[test]
fn add_sub_logic_ops() {
    let mut cpu = boot(&[
        rtype(0, 2, 1, 0, 3, 0x33),    // ADD x3 = x1 + x2
        rtype(0x20, 2, 1, 0, 4, 0x33), // SUB x4 = x1 - x2
        rtype(0, 2, 1, 4, 5, 0x33),    // XOR
        rtype(0, 2, 1, 6, 6, 0x33),    // OR
        rtype(0, 2, 1, 7, 7, 0x33),    // AND
    ]);
    cpu.write_reg(1, 0b1100);
    cpu.write_reg(2, 0b1010);
    for _ in 0..5 {
        cpu.execute().unwrap();
    }
    assert_eq!(cpu.read_reg(3), 0b10110);
    assert_eq!(cpu.read_reg(4), 0b0010);
    assert_eq!(cpu.read_reg(5), 0b0110);
    assert_eq!(cpu.read_reg(6), 0b1110);
    assert_eq!(cpu.read_reg(7), 0b1000);
}

#[test]
fn shift_amount_masked_to_six_bits() {
    // SLL with a shift register holding 65 shifts by 1.
    let mut cpu = boot(&[rtype(0, 2, 1, 1, 3, 0x33)]);
    cpu.write_reg(1, 0x10);
    cpu.write_reg(2, 65);
    cpu.execute().unwrap();
    assert_eq!(cpu.read_reg(3), 0x20);
}

#[test]
fn sra_is_arithmetic() {
    // SRA of a negative value keeps the sign.
    let mut cpu = boot(&[rtype(0x20, 2, 1, 5, 3, 0x33)]);
    cpu.write_reg(1, 0xFFFF_FFFF_FFFF_FF00);
    cpu.write_reg(2, 4);
    cpu.execute().unwrap();
    assert_eq!(cpu.read_reg(3), 0xFFFF_FFFF_FFFF_FFF0);
}

#[test]
fn slt_and_sltu_disagree_on_negative() {
    let mut cpu = boot(&[
        rtype(0, 2, 1, 2, 3, 0x33), // SLT
        rtype(0, 2, 1, 3, 4, 0x33), // SLTU
    ]);
    cpu.write_reg(1, u64::MAX); // -1 signed, huge unsigned
    cpu.write_reg(2, 1);
    cpu.execute().unwrap();
    cpu.execute().unwrap();
    assert_eq!(cpu.read_reg(3), 1);
    assert_eq!(cpu.read_reg(4), 0);
}

#[test]
fn mul_and_mulh_results() {
    let mut cpu = boot(&[
        rtype(1, 2, 1, 0, 3, 0x33), // MUL
        rtype(1, 2, 1, 1, 4, 0x33), // MULH
        rtype(1, 2, 1, 3, 5, 0x33), // MULHU
    ]);
    cpu.write_reg(1, u64::MAX); // -1
    cpu.write_reg(2, u64::MAX); // -1
    for _ in 0..3 {
        cpu.execute().unwrap();
    }
    assert_eq!(cpu.read_reg(3), 1); // (-1) * (-1) = 1
    assert_eq!(cpu.read_reg(4), 0); // high part of signed 1
    assert_eq!(cpu.read_reg(5), 0xFFFF_FFFF_FFFF_FFFE); // high of unsigned square
}

#[test]
fn mulhsu_is_rejected() {
    let mut cpu = boot(&[rtype(1, 2, 1, 2, 3, 0x33)]);
    let e = cpu.execute().unwrap_err();
    assert!(matches!(e, Exception::IllegalInstruction(_)));
}

#[test]
fn div_rem_signed_results() {
    let mut cpu = boot(&[
        rtype(1, 2, 1, 4, 3, 0x33), // DIV
        rtype(1, 2, 1, 6, 4, 0x33), // REM
    ]);
    cpu.write_reg(1, (-7i64) as u64);
    cpu.write_reg(2, 2);
    cpu.execute().unwrap();
    cpu.execute().unwrap();
    assert_eq!(cpu.read_reg(3), (-3i64) as u64); // truncates toward zero
    assert_eq!(cpu.read_reg(4), (-1i64) as u64); // remainder keeps dividend sign
}

#[test]
fn div_by_zero_and_overflow_sentinels() {
    assert_eq!(div_signed(42, 0), u64::MAX); // -1
    assert_eq!(rem_signed(42, 0), 42);
    assert_eq!(div_unsigned(42, 0), u64::MAX);
    assert_eq!(rem_unsigned(42, 0), 42);
    let min = i64::MIN as u64;
    assert_eq!(div_signed(min, u64::MAX), min); // MIN / -1 wraps to MIN
    assert_eq!(rem_signed(min, u64::MAX), 0);
}

#[test]
fn divw_word_semantics() {
    // Only the low 32 bits matter; results are sign-extended.
    assert_eq!(div_signed_w(0xFFFF_FFFF_0000_0014, 5), 4); // 20 / 5
    assert_eq!(div_signed_w(0xFFFF_FFF9, 2), (-3i64) as u64); // -7 / 2
    assert_eq!(div_signed_w(7, 0), u64::MAX);
    assert_eq!(div_signed_w(0x8000_0000, 0xFFFF_FFFF), 0xFFFF_FFFF_8000_0000); // MIN32 / -1
    assert_eq!(div_unsigned_w(0xFFFF_FFFF, 2), 0x7FFF_FFFF);
    assert_eq!(rem_signed_w(0xFFFF_FFF9, 2), (-1i64) as u64);
    assert_eq!(rem_unsigned_w(7, 0), 7);
}

#[test]
fn addw_wraps_and_sign_extends() {
    // ADDW x3 = x1 + x2 on the low 32 bits.
    let mut cpu = boot(&[rtype(0, 2, 1, 0, 3, 0x3B)]);
    cpu.write_reg(1, 0x7FFF_FFFF);
    cpu.write_reg(2, 1);
    cpu.execute().unwrap();
    assert_eq!(cpu.read_reg(3), 0xFFFF_FFFF_8000_0000);
}

#[test]
fn sllw_masks_shift_to_five_bits() {
    // SLLW with shift register 33 shifts by 1.
    let mut cpu = boot(&[rtype(0, 2, 1, 1, 3, 0x3B)]);
    cpu.write_reg(1, 0x10);
    cpu.write_reg(2, 33);
    cpu.execute().unwrap();
    assert_eq!(cpu.read_reg(3), 0x20);
}

#[test]
fn srlw_ignores_upper_half() {
    // SRLW shifts the low 32 bits only.
    let mut cpu = boot(&[rtype(0, 2, 1, 5, 3, 0x3B)]);
    cpu.write_reg(1, 0xFFFF_FFFF_8000_0000);
    cpu.write_reg(2, 4);
    cpu.execute().unwrap();
    assert_eq!(cpu.read_reg(3), 0x0800_0000);
}

#[test]
fn sraw_keeps_sign_of_low_word() {
    let mut cpu = boot(&[rtype(0x20, 2, 1, 5, 3, 0x3B)]);
    cpu.write_reg(1, 0x8000_0000);
    cpu.write_reg(2, 4);
    cpu.execute().unwrap();
    assert_eq!(cpu.read_reg(3), 0xFFFF_FFFF_F800_0000);
}

#[test]
fn addiw_sltiu_ori_immediates() {
    let mut cpu = boot(&[
        itype(0xFFF, 1, 0, 3, 0x1B), // ADDIW x3 = x1 + (-1)
        itype(5, 0, 3, 4, 0x13),     // SLTIU x4 = (x0 < 5)
        itype(0xF0, 0, 6, 5, 0x13),  // ORI x5 = x0 | 0xF0
    ]);
    cpu.write_reg(1, 0x8000_0000);
    for _ in 0..3 {
        cpu.execute().unwrap();
    }
    assert_eq!(cpu.read_reg(3), 0x7FFF_FFFF);
    assert_eq!(cpu.read_reg(4), 1);
    assert_eq!(cpu.read_reg(5), 0xF0);
}

#[test]
fn slli_srai_shift_immediates() {
    let mut cpu = boot(&[
        itype(8, 1, 1, 3, 0x13),            // SLLI x3 = x1 << 8
        ((0x20 << 25) | (4 << 20)) | (1 << 15) | (5 << 12) | (4 << 7) | 0x13, // SRAI x4 = x1 >> 4
    ]);
    cpu.write_reg(1, 0xFFFF_FFFF_FFFF_FF00);
    cpu.execute().unwrap();
    cpu.execute().unwrap();
    assert_eq!(cpu.read_reg(3), 0xFFFF_FFFF_FFFF_0000);
    assert_eq!(cpu.read_reg(4), 0xFFFF_FFFF_FFFF_FFF0);
}

#[test]
fn srliw_uses_low_word_only() {
    // SRLIW x3 = (low 32 of x1) >> 4, sign-extended afterwards.
    let mut cpu = boot(&[itype(4, 1, 5, 3, 0x1B)]);
    cpu.write_reg(1, 0xFF00_0000_8000_0000);
    cpu.execute().unwrap();
    assert_eq!(cpu.read_reg(3), 0x0800_0000);
}

#[test]
fn ld_is_served_as_32_bit_access() {
    // The doubleword load reads a 32-bit word, zero-extended.
    let mut cpu = boot(&[itype(0, 1, 3, 3, 0x03)]);
    let addr = DRAM_START + 0x200;
    cpu.bus.write(addr, 0x1122_3344_5566_7788, 64).unwrap();
    cpu.write_reg(1, addr);
    cpu.execute().unwrap();
    assert_eq!(cpu.read_reg(3), 0x5566_7788);
}

#[test]
fn sh_lh_halfword_roundtrip() {
    let mut cpu = boot(&[
        stype(0, 2, 1, 1),       // SH x2, 0(x1)
        itype(0, 1, 1, 3, 0x03), // LH x3, 0(x1)
        itype(0, 1, 5, 4, 0x03), // LHU x4, 0(x1)
    ]);
    cpu.write_reg(1, DRAM_START + 0x300);
    cpu.write_reg(2, 0xFFFF_8001);
    for _ in 0..3 {
        cpu.execute().unwrap();
    }
    assert_eq!(cpu.read_reg(3), 0xFFFF_FFFF_FFFF_8001);
    assert_eq!(cpu.read_reg(4), 0x8001);
}

#[test]
fn fence_is_a_no_op() {
    let mut cpu = boot(&[0x0000_000F]);
    cpu.execute().unwrap();
    assert_eq!(cpu.pc(), DRAM_START + 4);
}

#[test]
fn wfi_fails_explicitly() {
    let mut cpu = boot(&[0x1050_0073]);
    let e = cpu.execute().unwrap_err();
    assert!(matches!(e, Exception::IllegalInstruction(_)));
    assert_eq!(cpu.pc(), DRAM_START);
}

#[test]
fn compressed_encodings_are_rejected() {
    // Low two bits 01: a compressed instruction; the engine refuses it.
    let mut cpu = Cpu::new();
    cpu.bus.dram.load(&[0x01, 0x00]);
    cpu.set_pc(DRAM_START);
    let e = cpu.execute().unwrap_err();
    assert!(matches!(e, Exception::IllegalInstruction(_)));
}

#[test]
fn all_zero_halfword_is_rejected() {
    let mut cpu = Cpu::new();
    cpu.set_pc(DRAM_START); // memory is zeroed
    let e = cpu.execute().unwrap_err();
    assert!(matches!(e, Exception::IllegalInstruction(_)));
}

#[test]
fn ecall_reports_machine_mode_at_boot() {
    let mut cpu = boot(&[0x0000_0073]);
    let e = cpu.execute().unwrap_err();
    assert!(matches!(e, Exception::ECallFromM));
    assert_eq!(e.to_code(), 11);
}

#[test]
fn mret_jumps_to_saved_pc() {
    let mut cpu = boot(&[0x3020_0073]);
    cpu.write_csr(0x341, 0x8000_0040); // exception program counter
    cpu.execute().unwrap();
    // MRET targets mepc - 4; the uniform +4 advance lands on mepc.
    assert_eq!(cpu.pc(), 0x8000_0040);
}

#[test]
fn mret_restores_privilege_from_status() {
    // MPP = 0 (user) in mstatus; after MRET an ECALL reports user mode.
    let mut cpu = boot(&[0x3020_0073, 0, 0x0000_0073]);
    cpu.write_csr(0x300, 0); // MPP bits 12..11 = 0
    cpu.write_csr(0x341, DRAM_START + 8); // continue at the ECALL
    cpu.execute().unwrap();
    assert_eq!(cpu.pc(), DRAM_START + 8);
    let e = cpu.execute().unwrap_err();
    assert!(matches!(e, Exception::ECallFromU));
    assert_eq!(e.to_code(), 8);
}

#[test]
fn trap_then_mret_restores_machine_mode() {
    // A trap in machine mode records machine in the status CSR; MRET
    // returns to machine mode, and a later ECALL reports it.
    let mut cpu = boot(&[0x0000_0073, 0x3020_0073]);
    cpu.write_csr(0x305, DRAM_START + 4); // trap vector: the MRET
    let e = cpu.execute().unwrap_err();
    cpu.handle_trap(e);
    assert_eq!(cpu.pc(), DRAM_START + 4);
    assert_eq!(cpu.read_csr(0x300) >> 11 & 3, 3); // saved MPP = machine
    cpu.write_csr(0x341, DRAM_START); // return to the ECALL
    cpu.execute().unwrap(); // MRET
    let e2 = cpu.execute().unwrap_err();
    assert!(matches!(e2, Exception::ECallFromM));
}

#[test]
fn ecall_reports_supervisor_after_mret() {
    // MPP = 1 (supervisor); MRET drops to supervisor mode, and the ECALL
    // that follows reports it.
    let mut cpu = boot(&[0x3020_0073, 0, 0x0000_0073]);
    cpu.write_csr(0x300, 1 << 11); // saved mode: supervisor
    cpu.write_csr(0x341, DRAM_START + 8);
    cpu.execute().unwrap();
    let e = cpu.execute().unwrap_err();
    assert!(matches!(e, Exception::ECallFromS));
    assert_eq!(e.to_code(), 9);
}

#[test]
fn jalr_through_link_register_uses_old_value() {
    // JALR x1, 0(x1): the target comes from the value x1 held before the
    // link write.
    let mut cpu = boot(&[itype(0, 1, 0, 1, 0x67)]);
    cpu.write_reg(1, 0x8000_0100);
    cpu.execute().unwrap();
    assert_eq!(cpu.pc(), 0x8000_0100);
    assert_eq!(cpu.read_reg(1), DRAM_START + 4);
}
