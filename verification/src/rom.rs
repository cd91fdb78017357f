//! Boot ROM: a read-only blob, typically holding a device-tree image.

use crate::bytes::{le_value, valid_width, width_bytes};
use crate::exception::Exception;
use vstd::prelude::*;

verus! {

/// A read-only byte store, empty until a blob is loaded. Callers must
/// respect the bounds of the loaded blob: the address-space dispatcher
/// checks them before forwarding.
pub struct Rom {
    rom: Vec<u8>,
}

impl View for Rom {
    type V = Seq<u8>;

    closed spec fn view(&self) -> Seq<u8> {
        self.rom@
    }
}

impl Rom {
    /// Starts empty.
    pub fn new() -> (r: Rom)
        ensures
            r@ == Seq::<u8>::empty(),
    {
        Rom { rom: Vec::new() }
    }

    /// Replaces the contents with `data`.
    pub fn load(&mut self, data: &[u8])
        ensures
            final(self)@ == data@,
    {
        self.rom = Vec::new();
        let mut i: usize = 0;
        while i < data.len()
            invariant
                i <= data@.len(),
                self.rom@ == data@.subrange(0, i as int),
            decreases data@.len() - i,
        {
            self.rom.push(data[i]);
            proof {
                assert(self.rom@ =~= data@.subrange(0, i + 1));
            }
            i = i + 1;
        }
        proof {
            assert(self.rom@ =~= data@);
        }
    }

    /// The number of loaded bytes.
    pub fn size(&self) -> (n: usize)
        ensures
            n == self@.len(),
    {
        self.rom.len()
    }

    /// Reads a `size`-bit little-endian value at `addr`; a width other
    /// than 8, 16, 32 or 64 is a hardware error.
    pub fn read(&self, addr: u64, size: u8) -> (r: Result<u64, Exception>)
        requires
            valid_width(size) ==> addr + width_bytes(size) <= self@.len(),
        ensures
            match r {
                Ok(v) => valid_width(size) && v == le_value(self@, addr as int, width_bytes(size)),
                Err(e) => !valid_width(size) && e == Exception::HardwareError,
            },
    {
        match size {
            8 => Ok(self.read8(addr)),
            16 => Ok(self.read16(addr)),
            32 => Ok(self.read32(addr)),
            64 => Ok(self.read64(addr)),
            _ => Err(Exception::HardwareError),
        }
    }

    fn read8(&self, addr: u64) -> (r: u64)
        requires
            addr + 1 <= self@.len(),
        ensures
            r == le_value(self@, addr as int, 1),
    {
        proof {
            reveal_with_fuel(le_value, 9);
        }
        let _len: usize = self.rom.len();
        self.rom[addr as usize] as u64
    }

    fn read16(&self, addr: u64) -> (r: u64)
        requires
            addr + 2 <= self@.len(),
        ensures
            r == le_value(self@, addr as int, 2),
    {
        proof {
            reveal_with_fuel(le_value, 9);
        }
        let _len: usize = self.rom.len();
        self.rom[addr as usize] as u64 + 0x100 * (self.rom[addr as usize + 1] as u64)
    }

    fn read32(&self, addr: u64) -> (r: u64)
        requires
            addr + 4 <= self@.len(),
        ensures
            r == le_value(self@, addr as int, 4),
    {
        proof {
            reveal_with_fuel(le_value, 9);
        }
        let _len: usize = self.rom.len();
        self.rom[addr as usize] as u64 + 0x100 * (self.rom[addr as usize + 1] as u64) + 0x1_0000
            * (self.rom[addr as usize + 2] as u64) + 0x100_0000 * (self.rom[addr as usize
            + 3] as u64)
    }

    fn read64(&self, addr: u64) -> (r: u64)
        requires
            addr + 8 <= self@.len(),
        ensures
            r == le_value(self@, addr as int, 8),
    {
        proof {
            reveal_with_fuel(le_value, 9);
        }
        let _len: usize = self.rom.len();
        self.rom[addr as usize] as u64 + 0x100 * (self.rom[addr as usize + 1] as u64) + 0x1_0000
            * (self.rom[addr as usize + 2] as u64) + 0x100_0000 * (self.rom[addr as usize
            + 3] as u64) + 0x1_0000_0000 * (self.rom[addr as usize + 4] as u64)
            + 0x100_0000_0000 * (self.rom[addr as usize + 5] as u64) + 0x1_0000_0000_0000
            * (self.rom[addr as usize + 6] as u64) + 0x100_0000_0000_0000 * (self.rom[addr
            as usize + 7] as u64)
    }
}

} // verus!
