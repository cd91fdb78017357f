//! Instruction-word field extraction, immediate reconstruction, and the
//! arithmetic of the instruction set: two's-complement interpretation,
//! sign extension, and the multiply/divide semantics with their
//! architecturally defined division-by-zero and overflow results.
//!
//! Fields and immediates are specified arithmetically: dividing by a power
//! of two selects a bit position, and a remainder selects a field width,
//! exactly as the encoding lays the fields out.

use vstd::prelude::*;

verus! {

/// The value `v` reduced into `[0, 2^64)`: the 64-bit register pattern
/// that represents the mathematical integer `v` in two's complement.
pub open spec fn u64_of_int(v: int) -> u64 {
    (v % 0x1_0000_0000_0000_0000) as u64
}

/// The signed (two's-complement) reading of a 64-bit register pattern.
pub open spec fn s64(x: u64) -> int {
    if x < 0x8000_0000_0000_0000 {
        x as int
    } else {
        x as int - 0x1_0000_0000_0000_0000
    }
}

/// The low 32 bits of a register pattern.
pub open spec fn lo32(x: u64) -> u64 {
    (x as int % 0x1_0000_0000) as u64
}

/// The signed reading of the low 32 bits of a register pattern.
pub open spec fn s32(x: u64) -> int {
    if lo32(x) < 0x8000_0000 {
        lo32(x) as int
    } else {
        lo32(x) as int - 0x1_0000_0000
    }
}

/// `v` wrapped into the signed 32-bit range `[-2^31, 2^31)`.
pub open spec fn swrap32(v: int) -> int {
    (v + 0x8000_0000) % 0x1_0000_0000 - 0x8000_0000
}

/// The register pattern holding `v` wrapped to 32 bits and sign-extended:
/// how every 32-bit ("W") operation deposits its result.
pub open spec fn sext32_int(v: int) -> u64 {
    u64_of_int(swrap32(v))
}

// --- Instruction word fields (32-bit encodings) ---

/// Bits 6..0: the major opcode.
pub open spec fn opcode_of(inst: u64) -> u64 {
    (inst as int % 0x80) as u64
}

/// Bits 14..12.
pub open spec fn funct3_of(inst: u64) -> u64 {
    (inst as int / 0x1000 % 8) as u64
}

/// Bits 31..25 (of an instruction word below `2^32`).
pub open spec fn funct7_of(inst: u64) -> u64 {
    (inst as int / 0x200_0000) as u64
}

/// Bits 11..7: the destination register index.
pub open spec fn rd_of(inst: u64) -> u64 {
    (inst as int / 0x80 % 0x20) as u64
}

/// Bits 19..15: the first source register index.
pub open spec fn rs1_of(inst: u64) -> u64 {
    (inst as int / 0x8000 % 0x20) as u64
}

/// Bits 24..20: the second source register index.
pub open spec fn rs2_of(inst: u64) -> u64 {
    (inst as int / 0x10_0000 % 0x20) as u64
}

/// Bits 31..20: the CSR index of a SYSTEM instruction (below 4096 for an
/// instruction word below `2^32`).
pub open spec fn csr_of(inst: u64) -> u64 {
    (inst as int / 0x10_0000) as u64
}

/// Bits 25..20: the shift amount of a 64-bit immediate shift.
pub open spec fn shamt6_of(inst: u64) -> u64 {
    (inst as int / 0x10_0000 % 0x40) as u64
}

/// Bits 24..20: the shift amount of a 32-bit immediate shift.
pub open spec fn shamt5_of(inst: u64) -> u64 {
    (inst as int / 0x10_0000 % 0x20) as u64
}

// --- Immediate reconstruction ---

/// A field of `full` values whose top bit (at weight `full/2`) is the sign:
/// values at or above `half` read as negative.
pub open spec fn sign_field(v: int, half: int, full: int) -> int {
    if v < half {
        v
    } else {
        v - full
    }
}

/// I-type immediate: bits 31..20, sign-extended.
pub open spec fn imm_i(inst: u64) -> u64 {
    u64_of_int(sign_field(inst as int / 0x10_0000, 0x800, 0x1000))
}

/// S-type immediate: bits 31..25 at positions 11..5 and bits 11..7 at
/// positions 4..0, sign-extended.
pub open spec fn imm_s(inst: u64) -> u64 {
    u64_of_int(
        sign_field(inst as int / 0x200_0000 * 0x20 + inst as int / 0x80 % 0x20, 0x800, 0x1000),
    )
}

/// B-type immediate: bit 31 at position 12, bit 7 at position 11, bits
/// 30..25 at positions 10..5, bits 11..8 at positions 4..1; bit 0 is zero;
/// sign-extended.
pub open spec fn imm_b(inst: u64) -> u64 {
    u64_of_int(
        sign_field(
            inst as int / 0x8000_0000 * 0x1000 + inst as int / 0x80 % 2 * 0x800 + inst as int
                / 0x200_0000 % 0x40 * 0x20 + inst as int / 0x100 % 0x10 * 2,
            0x1000,
            0x2000,
        ),
    )
}

/// U-type immediate: bits 31..12 at positions 31..12, sign-extended as a
/// 32-bit value.
pub open spec fn imm_u(inst: u64) -> u64 {
    u64_of_int(
        sign_field(inst as int / 0x1000 % 0x10_0000 * 0x1000, 0x8000_0000, 0x1_0000_0000),
    )
}

/// J-type immediate: bit 31 at position 20, bits 19..12 in place, bit 20
/// at position 11, bits 30..21 at positions 10..1; bit 0 is zero;
/// sign-extended.
pub open spec fn imm_j(inst: u64) -> u64 {
    u64_of_int(
        sign_field(
            inst as int / 0x8000_0000 * 0x10_0000 + inst as int / 0x1000 % 0x100 * 0x1000
                + inst as int / 0x10_0000 % 2 * 0x800 + inst as int / 0x20_0000 % 0x400 * 2,
            0x10_0000,
            0x20_0000,
        ),
    )
}

// --- Signed division, truncating toward zero ---

/// Absolute value.
pub open spec fn iabs(v: int) -> int {
    if v < 0 {
        -v
    } else {
        v
    }
}

/// Quotient truncated toward zero, as hardware division computes it.
pub open spec fn tdiv(a: int, b: int) -> int {
    if (a < 0) == (b < 0) {
        iabs(a) / iabs(b)
    } else {
        -(iabs(a) / iabs(b))
    }
}

/// Remainder of truncating division: magnitude `|a| % |b|`, with the sign
/// of the dividend.
pub open spec fn trem(a: int, b: int) -> int {
    if a < 0 {
        -(iabs(a) % iabs(b))
    } else {
        iabs(a) % iabs(b)
    }
}

/// DIV: signed 64-bit division; division by zero yields all ones, and the
/// overflowing `MIN / -1` wraps back to `MIN`.
pub open spec fn sem_div(a: u64, b: u64) -> u64 {
    if b == 0 {
        0xFFFF_FFFF_FFFF_FFFF
    } else {
        u64_of_int(tdiv(s64(a), s64(b)))
    }
}

/// DIVU: unsigned 64-bit division; division by zero yields all ones.
pub open spec fn sem_divu(a: u64, b: u64) -> u64 {
    if b == 0 {
        0xFFFF_FFFF_FFFF_FFFF
    } else {
        (a as int / b as int) as u64
    }
}

/// REM: remainder of signed 64-bit division; a zero divisor yields the
/// dividend.
pub open spec fn sem_rem(a: u64, b: u64) -> u64 {
    if b == 0 {
        a
    } else {
        u64_of_int(trem(s64(a), s64(b)))
    }
}

/// REMU: remainder of unsigned 64-bit division; a zero divisor yields the
/// dividend.
pub open spec fn sem_remu(a: u64, b: u64) -> u64 {
    if b == 0 {
        a
    } else {
        (a as int % b as int) as u64
    }
}

/// DIVW: signed division of the low 32 bits, result sign-extended.
pub open spec fn sem_divw(a: u64, b: u64) -> u64 {
    if s32(b) == 0 {
        0xFFFF_FFFF_FFFF_FFFF
    } else {
        sext32_int(tdiv(s32(a), s32(b)))
    }
}

/// DIVUW: unsigned division of the low 32 bits, result sign-extended.
pub open spec fn sem_divuw(a: u64, b: u64) -> u64 {
    if lo32(b) == 0 {
        0xFFFF_FFFF_FFFF_FFFF
    } else {
        sext32_int(lo32(a) as int / lo32(b) as int)
    }
}

/// REMW: remainder of signed division of the low 32 bits, sign-extended;
/// a zero divisor yields the (low 32 bits of the) dividend.
pub open spec fn sem_remw(a: u64, b: u64) -> u64 {
    if s32(b) == 0 {
        sext32_int(s32(a))
    } else {
        sext32_int(trem(s32(a), s32(b)))
    }
}

/// REMUW: remainder of unsigned division of the low 32 bits,
/// sign-extended; a zero divisor yields the low 32 bits of the dividend.
pub open spec fn sem_remuw(a: u64, b: u64) -> u64 {
    if lo32(b) == 0 {
        sext32_int(lo32(a) as int)
    } else {
        sext32_int(lo32(a) as int % lo32(b) as int)
    }
}

/// MULH: the high 64 bits of the signed 128-bit product.
pub open spec fn sem_mulh(a: u64, b: u64) -> u64 {
    u64_of_int((s64(a) * s64(b)) / 0x1_0000_0000_0000_0000)
}

/// MULHU: the high 64 bits of the unsigned 128-bit product.
pub open spec fn sem_mulhu(a: u64, b: u64) -> u64 {
    u64_of_int((a as int * b as int) / 0x1_0000_0000_0000_0000)
}

// --- Executable arithmetic helpers ---

/// Signed comparison of two register patterns.
pub fn slt_signed(a: u64, b: u64) -> (r: bool)
    ensures
        r == (s64(a) < s64(b)),
{
    let a_neg = a >= 0x8000_0000_0000_0000;
    let b_neg = b >= 0x8000_0000_0000_0000;
    if a_neg == b_neg {
        a < b
    } else {
        a_neg
    }
}

/// Sign extension of a 32-bit pattern into 64 bits.
pub fn sext32_exec(x: u64) -> (r: u64)
    requires
        x < 0x1_0000_0000,
    ensures
        r == sext32_int(x as int),
{
    if x >= 0x8000_0000 {
        x + 0xFFFF_FFFF_0000_0000
    } else {
        x
    }
}

/// DIV.
pub fn div_signed(a: u64, b: u64) -> (r: u64)
    ensures
        r == sem_div(a, b),
{
    if b == 0 {
        return 0xFFFF_FFFF_FFFF_FFFF;
    }
    let a_neg = a >= 0x8000_0000_0000_0000;
    let b_neg = b >= 0x8000_0000_0000_0000;
    let au = if a_neg { 0u64.wrapping_sub(a) } else { a };
    let bu = if b_neg { 0u64.wrapping_sub(b) } else { b };
    let q = au / bu;
    if a_neg == b_neg {
        q
    } else {
        0u64.wrapping_sub(q)
    }
}

/// REM.
pub fn rem_signed(a: u64, b: u64) -> (r: u64)
    ensures
        r == sem_rem(a, b),
{
    if b == 0 {
        return a;
    }
    let a_neg = a >= 0x8000_0000_0000_0000;
    let b_neg = b >= 0x8000_0000_0000_0000;
    let au = if a_neg { 0u64.wrapping_sub(a) } else { a };
    let bu = if b_neg { 0u64.wrapping_sub(b) } else { b };
    let m = au % bu;
    if a_neg {
        0u64.wrapping_sub(m)
    } else {
        m
    }
}

/// DIVU.
pub fn div_unsigned(a: u64, b: u64) -> (r: u64)
    ensures
        r == sem_divu(a, b),
{
    if b == 0 {
        0xFFFF_FFFF_FFFF_FFFF
    } else {
        a / b
    }
}

/// REMU.
pub fn rem_unsigned(a: u64, b: u64) -> (r: u64)
    ensures
        r == sem_remu(a, b),
{
    if b == 0 {
        a
    } else {
        a % b
    }
}

/// DIVW.
pub fn div_signed_w(a: u64, b: u64) -> (r: u64)
    ensures
        r == sem_divw(a, b),
{
    let la = a % 0x1_0000_0000;
    let lb = b % 0x1_0000_0000;
    if lb == 0 {
        return 0xFFFF_FFFF_FFFF_FFFF;
    }
    let a_neg = la >= 0x8000_0000;
    let b_neg = lb >= 0x8000_0000;
    let au = if a_neg { 0x1_0000_0000 - la } else { la };
    let bu = if b_neg { 0x1_0000_0000 - lb } else { lb };
    let q = au / bu;
    if a_neg == b_neg {
        if q >= 0x8000_0000 {
            0xFFFF_FFFF_8000_0000
        } else {
            q
        }
    } else {
        0u64.wrapping_sub(q)
    }
}

/// REMW.
pub fn rem_signed_w(a: u64, b: u64) -> (r: u64)
    ensures
        r == sem_remw(a, b),
{
    let la = a % 0x1_0000_0000;
    let lb = b % 0x1_0000_0000;
    let a_neg = la >= 0x8000_0000;
    let b_neg = lb >= 0x8000_0000;
    if lb == 0 {
        return sext32_exec(la);
    }
    let au = if a_neg { 0x1_0000_0000 - la } else { la };
    let bu = if b_neg { 0x1_0000_0000 - lb } else { lb };
    let m = au % bu;
    if a_neg {
        0u64.wrapping_sub(m)
    } else {
        m
    }
}

/// DIVUW.
pub fn div_unsigned_w(a: u64, b: u64) -> (r: u64)
    ensures
        r == sem_divuw(a, b),
{
    let la = a % 0x1_0000_0000;
    let lb = b % 0x1_0000_0000;
    if lb == 0 {
        0xFFFF_FFFF_FFFF_FFFF
    } else {
        sext32_exec(la / lb)
    }
}

/// REMUW.
pub fn rem_unsigned_w(a: u64, b: u64) -> (r: u64)
    ensures
        r == sem_remuw(a, b),
{
    let la = a % 0x1_0000_0000;
    let lb = b % 0x1_0000_0000;
    if lb == 0 {
        sext32_exec(la)
    } else {
        sext32_exec(la % lb)
    }
}

/// MULHU.
pub fn mulhu(a: u64, b: u64) -> (r: u64)
    ensures
        r == sem_mulhu(a, b),
{
    proof {
        assert((a as int * b as int) < (0x1_0000_0000_0000_0000 * 0x1_0000_0000_0000_0000))
            by (nonlinear_arith)
            requires
                a < 0x1_0000_0000_0000_0000,
                b < 0x1_0000_0000_0000_0000,
        ;
    }
    let p: u128 = (a as u128) * (b as u128);
    proof {
        lemma_div_bound_128(p as int);
    }
    (p / 0x1_0000_0000_0000_0000) as u64
}

/// A 128-bit value divided by `2^64` fits in 64 bits.
proof fn lemma_div_bound_128(p: int)
    requires
        0 <= p < (0x1_0000_0000_0000_0000 * 0x1_0000_0000_0000_0000),
    ensures
        0 <= p / 0x1_0000_0000_0000_0000 < 0x1_0000_0000_0000_0000,
{
    assert(0 <= p / 0x1_0000_0000_0000_0000 < 0x1_0000_0000_0000_0000) by (nonlinear_arith)
        requires
            0 <= p < (0x1_0000_0000_0000_0000 * 0x1_0000_0000_0000_0000),
    ;
}

/// Euclidean division of a negated value: quotient and carry from the
/// remainder.
proof fn lemma_div_negate(p: int)
    requires
        0 <= p < (0x1_0000_0000_0000_0000 * 0x1_0000_0000_0000_0000),
    ensures
        p % 0x1_0000_0000_0000_0000 == 0 ==> (-p) / 0x1_0000_0000_0000_0000 == -(p
            / 0x1_0000_0000_0000_0000),
        p % 0x1_0000_0000_0000_0000 != 0 ==> (-p) / 0x1_0000_0000_0000_0000 == -(p
            / 0x1_0000_0000_0000_0000) - 1,
{
    let d = 0x1_0000_0000_0000_0000;
    vstd::arithmetic::div_mod::lemma_fundamental_div_mod(p, d);
    vstd::arithmetic::div_mod::lemma_fundamental_div_mod(-p, d);
    vstd::arithmetic::div_mod::lemma_mod_bound(p, d);
    vstd::arithmetic::div_mod::lemma_mod_bound(-p, d);
    let q1 = p / d;
    let r1 = p % d;
    let q2 = (-p) / d;
    let r2 = (-p) % d;
    assert(d * q1 + r1 + d * q2 + r2 == 0);
    assert(d * (q1 + q2) == -(r1 + r2)) by (nonlinear_arith)
        requires
            d * q1 + r1 + d * q2 + r2 == 0,
    ;
    if r1 == 0 {
        assert(d * (q1 + q2) == -r2);
        assert(q1 + q2 == 0) by (nonlinear_arith)
            requires
                d * (q1 + q2) == -r2,
                0 <= r2 < d,
                d == 0x1_0000_0000_0000_0000,
        ;
    } else {
        assert(q1 + q2 == -1) by (nonlinear_arith)
            requires
                d * (q1 + q2) == -(r1 + r2),
                0 < r1 < d,
                0 <= r2 < d,
                d == 0x1_0000_0000_0000_0000,
        ;
    }
}

/// MULH.
pub fn mulh(a: u64, b: u64) -> (r: u64)
    ensures
        r == sem_mulh(a, b),
{
    let a_neg = a >= 0x8000_0000_0000_0000;
    let b_neg = b >= 0x8000_0000_0000_0000;
    let au = if a_neg { 0u64.wrapping_sub(a) } else { a };
    let bu = if b_neg { 0u64.wrapping_sub(b) } else { b };
    proof {
        assert((au as int * bu as int) < (0x1_0000_0000_0000_0000 * 0x1_0000_0000_0000_0000))
            by (nonlinear_arith)
            requires
                au < 0x1_0000_0000_0000_0000,
                bu < 0x1_0000_0000_0000_0000,
        ;
        assert(iabs(s64(a)) * iabs(s64(b)) == au as int * bu as int) by (nonlinear_arith)
            requires
                iabs(s64(a)) == au as int,
                iabs(s64(b)) == bu as int,
        ;
        if a_neg != b_neg {
            assert(s64(a) * s64(b) == -(iabs(s64(a)) * iabs(s64(b)))) by (nonlinear_arith)
                requires
                    (s64(a) < 0) != (s64(b) < 0) || s64(a) == 0 || s64(b) == 0,
                    iabs(s64(a)) == if s64(a) < 0 {
                        -s64(a)
                    } else {
                        s64(a)
                    },
                    iabs(s64(b)) == if s64(b) < 0 {
                        -s64(b)
                    } else {
                        s64(b)
                    },
            ;
        } else {
            assert(s64(a) * s64(b) == iabs(s64(a)) * iabs(s64(b))) by (nonlinear_arith)
                requires
                    (s64(a) < 0) == (s64(b) < 0),
                    iabs(s64(a)) == if s64(a) < 0 {
                        -s64(a)
                    } else {
                        s64(a)
                    },
                    iabs(s64(b)) == if s64(b) < 0 {
                        -s64(b)
                    } else {
                        s64(b)
                    },
            ;
        }
    }
    let p: u128 = (au as u128) * (bu as u128);
    proof {
        lemma_div_bound_128(p as int);
        lemma_div_negate(p as int);
    }
    let hi = (p / 0x1_0000_0000_0000_0000) as u64;
    let lo_nonzero = p % 0x1_0000_0000_0000_0000 != 0;
    if a_neg != b_neg {
        if lo_nonzero {
            0xFFFF_FFFF_FFFF_FFFF - hi
        } else {
            0u64.wrapping_sub(hi)
        }
    } else {
        hi
    }
}

// --- Executable immediate decoders ---

/// I-type immediate of a fetched 32-bit instruction word.
pub fn decode_imm_i(inst: u64) -> (imm: u64)
    requires
        inst < 0x1_0000_0000,
    ensures
        imm == imm_i(inst),
{
    let f = inst / 0x10_0000;
    if f < 0x800 {
        f
    } else {
        f + 0xFFFF_FFFF_FFFF_F000
    }
}

/// S-type immediate of a fetched 32-bit instruction word.
pub fn decode_imm_s(inst: u64) -> (imm: u64)
    requires
        inst < 0x1_0000_0000,
    ensures
        imm == imm_s(inst),
{
    let f = inst / 0x200_0000 * 0x20 + inst / 0x80 % 0x20;
    if f < 0x800 {
        f
    } else {
        f + 0xFFFF_FFFF_FFFF_F000
    }
}

/// B-type immediate of a fetched 32-bit instruction word.
pub fn decode_imm_b(inst: u64) -> (imm: u64)
    requires
        inst < 0x1_0000_0000,
    ensures
        imm == imm_b(inst),
{
    let f = inst / 0x8000_0000 * 0x1000 + inst / 0x80 % 2 * 0x800 + inst / 0x200_0000 % 0x40
        * 0x20 + inst / 0x100 % 0x10 * 2;
    if f < 0x1000 {
        f
    } else {
        f + 0xFFFF_FFFF_FFFF_E000
    }
}

/// U-type immediate of a fetched 32-bit instruction word.
pub fn decode_imm_u(inst: u64) -> (imm: u64)
    requires
        inst < 0x1_0000_0000,
    ensures
        imm == imm_u(inst),
{
    let f = inst / 0x1000 % 0x10_0000 * 0x1000;
    if f < 0x8000_0000 {
        f
    } else {
        f + 0xFFFF_FFFF_0000_0000
    }
}

/// J-type immediate of a fetched 32-bit instruction word.
pub fn decode_imm_j(inst: u64) -> (imm: u64)
    requires
        inst < 0x1_0000_0000,
    ensures
        imm == imm_j(inst),
{
    let f = inst / 0x8000_0000 * 0x10_0000 + inst / 0x1000 % 0x100 * 0x1000 + inst / 0x10_0000
        % 2 * 0x800 + inst / 0x20_0000 % 0x400 * 2;
    if f < 0x10_0000 {
        f
    } else {
        f + 0xFFFF_FFFF_FFE0_0000
    }
}

} // verus!
