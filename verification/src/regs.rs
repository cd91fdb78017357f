//! The general-purpose register file and the control/status register file.

use vstd::prelude::*;
use vstd::pervasive::VecAdditionalExecFns;

verus! {

/// The CSR holding machine status; its bits 12..11 record the privilege
/// that was active when a trap was taken.
pub const CSR_MSTATUS: u64 = 0x300;

/// The CSR describing the supported ISA.
pub const CSR_MISA: u64 = 0x301;

/// The CSR holding the trap-vector address.
pub const CSR_MTVEC: u64 = 0x305;

/// The CSR holding the program counter of the faulting instruction.
pub const CSR_MEPC: u64 = 0x341;

/// The CSR holding the trap cause code.
pub const CSR_MCAUSE: u64 = 0x342;

/// The CSR holding the trap value (always zero in this model).
pub const CSR_MTVAL: u64 = 0x343;

/// The effect of a register-file write: register 0 is hardwired to zero,
/// so a write to it changes nothing.
pub open spec fn reg_write(regs: Seq<u64>, index: u64, value: u64) -> Seq<u64> {
    if index == 0 {
        regs
    } else {
        regs.update(index as int, value)
    }
}

/// 32 general-purpose 64-bit registers; index 0 always reads as zero.
pub struct Xregs {
    xregs: Vec<u64>,
}

impl View for Xregs {
    type V = Seq<u64>;

    closed spec fn view(&self) -> Seq<u64> {
        self.xregs@
    }
}

impl Xregs {
    /// 32 registers, with index 0 pinned to zero.
    pub open spec fn wf(&self) -> bool {
        self@.len() == 32 && self@[0] == 0
    }

    /// All registers start at zero.
    pub fn new() -> (r: Xregs)
        ensures
            r.wf(),
            r@ == Seq::new(32, |i: int| 0u64),
    {
        let v: Vec<u64> = vec![0u64; 32];
        proof {
            assert(v@ =~= Seq::new(32, |i: int| 0u64));
        }
        Xregs { xregs: v }
    }

    /// The value of register `index`; register 0 yields zero.
    pub fn read(&self, index: u64) -> (r: u64)
        requires
            self.wf(),
            index < 32,
        ensures
            r == self@[index as int],
            index == 0 ==> r == 0,
    {
        self.xregs[index as usize]
    }

    /// Writes register `index`; a write to register 0 is ignored.
    pub fn write(&mut self, index: u64, value: u64)
        requires
            old(self).wf(),
            index < 32,
        ensures
            final(self).wf(),
            final(self)@ == reg_write(old(self)@, index, value),
    {
        if index != 0 {
            self.xregs.set(index as usize, value);
        }
    }
}

/// 4096 flat 64-bit control/status registers, addressed by the 12-bit CSR
/// field of SYSTEM instructions; no privilege checks are modeled.
pub struct Csrs {
    csrs: Vec<u64>,
}

impl View for Csrs {
    type V = Seq<u64>;

    closed spec fn view(&self) -> Seq<u64> {
        self.csrs@
    }
}

impl Csrs {
    pub open spec fn wf(&self) -> bool {
        self@.len() == 4096
    }

    /// All CSRs start at zero.
    pub fn new() -> (r: Csrs)
        ensures
            r.wf(),
            r@ == Seq::new(4096, |i: int| 0u64),
    {
        let v: Vec<u64> = vec![0u64; 4096];
        proof {
            assert(v@ =~= Seq::new(4096, |i: int| 0u64));
        }
        Csrs { csrs: v }
    }

    /// The value of CSR `index`.
    pub fn read(&self, index: u64) -> (r: u64)
        requires
            self.wf(),
            index < 4096,
        ensures
            r == self@[index as int],
    {
        self.csrs[index as usize]
    }

    /// Writes CSR `index`.
    pub fn write(&mut self, index: u64, value: u64)
        requires
            old(self).wf(),
            index < 4096,
        ensures
            final(self).wf(),
            final(self)@ == old(self)@.update(index as int, value),
    {
        self.csrs.set(index as usize, value);
    }
}

} // verus!
