//! Main memory: a byte-addressable, little-endian read/write store.

use crate::bytes::{le_store, le_value, valid_width, width_bytes};
use crate::exception::Exception;
use vstd::prelude::*;
use vstd::pervasive::VecAdditionalExecFns;

verus! {

/// The capacity of main memory in bytes (1 GiB).
pub const DRAM_SIZE: u64 = 1024 * 1024 * 1024;

/// A byte-addressable backing store of `DRAM_SIZE` bytes. Multi-byte
/// accesses are little-endian. Callers must respect the bounds: the
/// address-space dispatcher checks them before forwarding.
pub struct Dram {
    dram: Vec<u8>,
}

impl View for Dram {
    type V = Seq<u8>;

    closed spec fn view(&self) -> Seq<u8> {
        self.dram@
    }
}

impl Dram {
    pub open spec fn wf(&self) -> bool {
        self@.len() == DRAM_SIZE
    }

    /// All bytes start at zero.
    pub fn new() -> (r: Dram)
        ensures
            r.wf(),
            forall|i: int| 0 <= i < DRAM_SIZE ==> r@[i] == 0,
    {
        let v: Vec<u8> = vec![0u8; DRAM_SIZE as usize];
        Dram { dram: v }
    }

    /// Copies `data` to the start of memory, as the boot loader does with
    /// the boot image.
    pub fn load(&mut self, data: &[u8])
        requires
            old(self).wf(),
            data@.len() <= DRAM_SIZE,
        ensures
            final(self).wf(),
            forall|i: int| 0 <= i < data@.len() ==> final(self)@[i] == data@[i],
            forall|i: int| data@.len() <= i < DRAM_SIZE ==> final(self)@[i] == old(self)@[i],
    {
        let mut i: usize = 0;
        while i < data.len()
            invariant
                self.wf(),
                i <= data@.len(),
                data@.len() <= DRAM_SIZE,
                forall|j: int| 0 <= j < i ==> self@[j] == data@[j],
                forall|j: int| i <= j < DRAM_SIZE ==> self@[j] == old(self)@[j],
            decreases data@.len() - i,
        {
            self.dram.set(i, data[i]);
            i = i + 1;
        }
    }

    /// Reads a `size`-bit little-endian value at `addr`; a width other
    /// than 8, 16, 32 or 64 is a hardware error.
    pub fn read(&self, addr: u64, size: u8) -> (r: Result<u64, Exception>)
        requires
            self.wf(),
            valid_width(size) ==> addr + width_bytes(size) <= self@.len(),
        ensures
            match r {
                Ok(v) => valid_width(size) && v == le_value(self@, addr as int, width_bytes(size)),
                Err(e) => !valid_width(size) && e == Exception::HardwareError,
            },
    {
        match size {
            8 => Ok(self.read8(addr)),
            16 => Ok(self.read16(addr)),
            32 => Ok(self.read32(addr)),
            64 => Ok(self.read64(addr)),
            _ => Err(Exception::HardwareError),
        }
    }

    /// Writes the low `size` bits of `value` at `addr`, little-endian; a
    /// width other than 8, 16, 32 or 64 is a hardware error.
    pub fn write(&mut self, addr: u64, value: u64, size: u8) -> (r: Result<(), Exception>)
        requires
            old(self).wf(),
            valid_width(size) ==> addr + width_bytes(size) <= old(self)@.len(),
        ensures
            final(self).wf(),
            match r {
                Ok(()) => valid_width(size) && final(self)@ == le_store(
                    old(self)@,
                    addr as int,
                    width_bytes(size),
                    value,
                ),
                Err(e) => !valid_width(size) && e == Exception::HardwareError && final(self)@
                    == old(self)@,
            },
    {
        match size {
            8 => self.write8(addr, value),
            16 => self.write16(addr, value),
            32 => self.write32(addr, value),
            64 => self.write64(addr, value),
            _ => return Err(Exception::HardwareError),
        }
        Ok(())
    }

    fn read8(&self, addr: u64) -> (r: u64)
        requires
            self.wf(),
            addr + 1 <= self@.len(),
        ensures
            r == le_value(self@, addr as int, 1),
    {
        proof {
            reveal_with_fuel(le_value, 9);
        }
        self.dram[addr as usize] as u64
    }

    fn read16(&self, addr: u64) -> (r: u64)
        requires
            self.wf(),
            addr + 2 <= self@.len(),
        ensures
            r == le_value(self@, addr as int, 2),
    {
        proof {
            reveal_with_fuel(le_value, 9);
        }
        self.dram[addr as usize] as u64 + 0x100 * (self.dram[addr as usize + 1] as u64)
    }

    fn read32(&self, addr: u64) -> (r: u64)
        requires
            self.wf(),
            addr + 4 <= self@.len(),
        ensures
            r == le_value(self@, addr as int, 4),
    {
        proof {
            reveal_with_fuel(le_value, 9);
        }
        self.dram[addr as usize] as u64 + 0x100 * (self.dram[addr as usize + 1] as u64) + 0x1_0000
            * (self.dram[addr as usize + 2] as u64) + 0x100_0000 * (self.dram[addr as usize
            + 3] as u64)
    }

    fn read64(&self, addr: u64) -> (r: u64)
        requires
            self.wf(),
            addr + 8 <= self@.len(),
        ensures
            r == le_value(self@, addr as int, 8),
    {
        proof {
            reveal_with_fuel(le_value, 9);
        }
        self.dram[addr as usize] as u64 + 0x100 * (self.dram[addr as usize + 1] as u64) + 0x1_0000
            * (self.dram[addr as usize + 2] as u64) + 0x100_0000 * (self.dram[addr as usize
            + 3] as u64) + 0x1_0000_0000 * (self.dram[addr as usize + 4] as u64)
            + 0x100_0000_0000 * (self.dram[addr as usize + 5] as u64) + 0x1_0000_0000_0000
            * (self.dram[addr as usize + 6] as u64) + 0x100_0000_0000_0000 * (self.dram[addr
            as usize + 7] as u64)
    }

    fn write8(&mut self, addr: u64, value: u64)
        requires
            old(self).wf(),
            addr + 1 <= old(self)@.len(),
        ensures
            final(self).wf(),
            final(self)@ == le_store(old(self)@, addr as int, 1, value),
    {
        proof {
            reveal_with_fuel(le_store, 9);
        }
        self.dram.set(addr as usize, (value % 0x100) as u8);
    }

    fn write16(&mut self, addr: u64, value: u64)
        requires
            old(self).wf(),
            addr + 2 <= old(self)@.len(),
        ensures
            final(self).wf(),
            final(self)@ == le_store(old(self)@, addr as int, 2, value),
    {
        proof {
            reveal_with_fuel(le_store, 9);
        }
        self.dram.set(addr as usize, (value % 0x100) as u8);
        self.dram.set(addr as usize + 1, (value / 0x100 % 0x100) as u8);
    }

    fn write32(&mut self, addr: u64, value: u64)
        requires
            old(self).wf(),
            addr + 4 <= old(self)@.len(),
        ensures
            final(self).wf(),
            final(self)@ == le_store(old(self)@, addr as int, 4, value),
    {
        proof {
            reveal_with_fuel(le_store, 9);
        }
        self.dram.set(addr as usize, (value % 0x100) as u8);
        self.dram.set(addr as usize + 1, (value / 0x100 % 0x100) as u8);
        self.dram.set(addr as usize + 2, (value / 0x1_0000 % 0x100) as u8);
        self.dram.set(addr as usize + 3, (value / 0x100_0000 % 0x100) as u8);
    }

    fn write64(&mut self, addr: u64, value: u64)
        requires
            old(self).wf(),
            addr + 8 <= old(self)@.len(),
        ensures
            final(self).wf(),
            final(self)@ == le_store(old(self)@, addr as int, 8, value),
    {
        proof {
            reveal_with_fuel(le_store, 9);
        }
        self.dram.set(addr as usize, (value % 0x100) as u8);
        self.dram.set(addr as usize + 1, (value / 0x100 % 0x100) as u8);
        self.dram.set(addr as usize + 2, (value / 0x1_0000 % 0x100) as u8);
        self.dram.set(addr as usize + 3, (value / 0x100_0000 % 0x100) as u8);
        self.dram.set(addr as usize + 4, (value / 0x1_0000_0000 % 0x100) as u8);
        self.dram.set(addr as usize + 5, (value / 0x100_0000_0000 % 0x100) as u8);
        self.dram.set(addr as usize + 6, (value / 0x1_0000_0000_0000 % 0x100) as u8);
        self.dram.set(addr as usize + 7, (value / 0x100_0000_0000_0000 % 0x100) as u8);
    }
}

} // verus!
