//! Little-endian multi-byte values over a byte-addressable store.
//!
//! `le_value` reads an `n`-byte little-endian value; `le_store` writes one.
//! The lemmas here establish the bounds of a read value, what a store
//! leaves untouched, and the store-then-load round trip.

use vstd::arithmetic::div_mod::{lemma_div_denominator, lemma_mod_breakdown};
use vstd::arithmetic::power2::{lemma2_to64, lemma_pow2_adds, lemma_pow2_pos, pow2};
use vstd::prelude::*;

verus! {

/// The supported access widths, in bits.
pub open spec fn valid_width(size: u8) -> bool {
    size == 8 || size == 16 || size == 32 || size == 64
}

/// The number of bytes a `size`-bit access touches.
pub open spec fn width_bytes(size: u8) -> int {
    size as int / 8
}

/// The value of the `n` bytes at `addr`, combined little-endian: the byte
/// at `addr` is least significant.
pub open spec fn le_value(mem: Seq<u8>, addr: int, n: int) -> int
    decreases n,
{
    if n <= 0 {
        0
    } else {
        mem[addr] + 0x100 * le_value(mem, addr + 1, n - 1)
    }
}

/// The store that writes the low `n` bytes of `v` at `addr`, little-endian:
/// the byte at `addr` receives the least significant byte.
pub open spec fn le_store(mem: Seq<u8>, addr: int, n: int, v: u64) -> Seq<u8>
    decreases n,
{
    if n <= 0 {
        mem
    } else {
        le_store(mem.update(addr, (v % 0x100) as u8), addr + 1, n - 1, (v / 0x100) as u64)
    }
}

/// A little-endian read of `n` bytes yields a value below `2^(8n)`.
pub proof fn lemma_le_value_bound(mem: Seq<u8>, addr: int, n: int)
    requires
        0 <= n,
    ensures
        0 <= le_value(mem, addr, n) < pow2(8 * n as nat),
    decreases n,
{
    if n <= 0 {
        lemma2_to64();
        assert(pow2(0) == 1);
    } else {
        lemma_le_value_bound(mem, addr + 1, n - 1);
        lemma_pow2_adds(8, 8 * (n - 1) as nat);
        lemma2_to64();
        let rest = le_value(mem, addr + 1, n - 1);
        let p = pow2(8 * (n - 1) as nat);
        assert(0x100 * rest <= 0x100 * (p - 1)) by (nonlinear_arith)
            requires
                rest <= p - 1,
        ;
    }
}

/// A store changes neither the length of the store nor any byte outside
/// the written range.
pub proof fn lemma_le_store_frame(mem: Seq<u8>, addr: int, n: int, v: u64)
    requires
        0 <= addr,
        0 <= n,
        addr + n <= mem.len(),
    ensures
        le_store(mem, addr, n, v).len() == mem.len(),
        forall|i: int|
            0 <= i < mem.len() && !(addr <= i < addr + n) ==> le_store(mem, addr, n, v)[i]
                == mem[i],
    decreases n,
{
    if n > 0 {
        let mem1 = mem.update(addr, (v % 0x100) as u8);
        let v1 = (v / 0x100) as u64;
        lemma_le_store_frame(mem1, addr + 1, n - 1, v1);
        assert forall|i: int|
            0 <= i < mem.len() && !(addr <= i < addr + n) implies le_store(mem, addr, n, v)[i]
            == mem[i] by {
            assert(le_store(mem1, addr + 1, n - 1, v1)[i] == mem1[i]);
        }
    }
}

/// Store-then-load round trip: reading back the `n` bytes just written
/// returns the value that was stored, reduced to its low `n` bytes.
pub proof fn lemma_le_roundtrip(mem: Seq<u8>, addr: int, n: int, v: u64)
    requires
        0 <= addr,
        0 <= n,
        addr + n <= mem.len(),
    ensures
        le_value(le_store(mem, addr, n, v), addr, n) == v as int % pow2(8 * n as nat) as int,
    decreases n,
{
    if n == 0 {
        lemma2_to64();
        assert(v as int % 1 == 0);
    } else {
        let mem1 = mem.update(addr, (v % 0x100) as u8);
        let v1 = (v / 0x100) as u64;
        let st = le_store(mem1, addr + 1, n - 1, v1);
        lemma_le_store_frame(mem1, addr + 1, n - 1, v1);
        assert(st[addr] == mem1[addr]);
        assert(st[addr] == v % 0x100);
        lemma_le_roundtrip(mem1, addr + 1, n - 1, v1);
        assert(le_value(st, addr, n) == v % 0x100 + 0x100 * (v1 as int % pow2(8 * (n - 1) as nat) as int));
        lemma_pow2_adds(8, 8 * (n - 1) as nat);
        lemma2_to64();
        lemma_pow2_pos(8 * (n - 1) as nat);
        lemma_mod_breakdown(v as int, 0x100, pow2(8 * (n - 1) as nat) as int);
    }
}

/// Two stores at the same range and width: the later one wins; a read
/// elsewhere is unaffected. Derived forms of the frame lemma used by the
/// bus-level contracts.
pub proof fn lemma_le_value_frame(mem1: Seq<u8>, mem2: Seq<u8>, addr: int, n: int)
    requires
        0 <= addr,
        0 <= n,
        addr + n <= mem1.len(),
        mem1.len() == mem2.len(),
        forall|i: int| addr <= i < addr + n ==> mem1[i] == mem2[i],
    ensures
        le_value(mem1, addr, n) == le_value(mem2, addr, n),
    decreases n,
{
    if n > 0 {
        lemma_le_value_frame(mem1, mem2, addr + 1, n - 1);
    }
}

/// `pow2` at the four access widths, in literal form.
pub proof fn lemma_width_pow2()
    ensures
        pow2(8) == 0x100,
        pow2(16) == 0x10000,
        pow2(32) == 0x1_0000_0000,
        pow2(64) == 0x1_0000_0000_0000_0000,
{
    lemma2_to64();
    lemma_pow2_adds(32, 32);
    assert(0x1_0000_0000 * 0x1_0000_0000 == 0x1_0000_0000_0000_0000) by (nonlinear_arith);
}

} // verus!
