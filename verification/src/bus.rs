//! The address-space dispatcher: an ordered table of disjoint half-open
//! address regions, each bound to one device. Every load and store is
//! routed to the owning device with the address rebased to the region
//! start; an address outside every region, or an access that would run
//! past the end of its region or of the loaded boot blob, is an access
//! fault — never a crash.

use crate::bytes::{le_store, le_value, lemma_le_value_bound, lemma_width_pow2, valid_width, width_bytes};
use vstd::arithmetic::power2::pow2;
use crate::clint::Clint;
use crate::dram::{Dram, DRAM_SIZE};
use crate::exception::{Exception, Fault, fault_of, matches_fault};
use crate::rom::Rom;
use crate::uart::Uart;
use vstd::prelude::*;

verus! {

/// Base of main memory.
pub const DRAM_START: u64 = 0x8000_0000;

/// One past the last main-memory address.
pub const DRAM_END: u64 = DRAM_START + DRAM_SIZE;

/// Base of the boot blob (device-tree image).
pub const DTB_START: u64 = 0x1000;

/// One past the last boot-blob address.
pub const DTB_END: u64 = DTB_START + 0xF000;

/// Base of the console device.
pub const UART_START: u64 = 0x1000_0000;

/// One past the last console address.
pub const UART_END: u64 = UART_START + 0x100;

/// Base of the timer/interrupt-controller stub.
pub const CLINT_START: u64 = 0x200_0000;

/// One past the last timer/interrupt-controller address.
pub const CLINT_END: u64 = CLINT_START + 0x1_0000;

pub open spec fn in_dtb(addr: u64) -> bool {
    DTB_START <= addr < DTB_END
}

pub open spec fn in_uart(addr: u64) -> bool {
    UART_START <= addr < UART_END
}

pub open spec fn in_clint(addr: u64) -> bool {
    CLINT_START <= addr < CLINT_END
}

pub open spec fn in_dram(addr: u64) -> bool {
    DRAM_START <= addr < DRAM_END
}

/// The four regions are pairwise disjoint: every address belongs to at
/// most one device.
pub proof fn lemma_regions_disjoint(addr: u64)
    ensures
        !(in_dtb(addr) && in_uart(addr)),
        !(in_dtb(addr) && in_clint(addr)),
        !(in_dtb(addr) && in_dram(addr)),
        !(in_uart(addr) && in_clint(addr)),
        !(in_uart(addr) && in_dram(addr)),
        !(in_clint(addr) && in_dram(addr)),
{
}

/// The state behind the bus: the boot blob, main memory, and the bytes
/// the console has emitted.
#[verifier::ext_equal]
pub struct BusView {
    pub rom: Seq<u8>,
    pub dram: Seq<u8>,
    pub console: Seq<u8>,
}

/// What a bus read returns: the little-endian bytes of the owning device,
/// zero from the stub devices, a load access fault outside every region
/// or past the end of the backing store, and a hardware error for an
/// unsupported access width in any region.
pub open spec fn bus_read_spec(b: BusView, addr: u64, size: u8) -> Result<u64, Fault> {
    if in_dtb(addr) {
        if !valid_width(size) {
            Err(Fault::Hardware)
        } else if addr - DTB_START + width_bytes(size) <= b.rom.len() {
            Ok(le_value(b.rom, addr - DTB_START, width_bytes(size)) as u64)
        } else {
            Err(Fault::LoadAccess)
        }
    } else if in_uart(addr) {
        if !valid_width(size) {
            Err(Fault::Hardware)
        } else {
            Ok(0)
        }
    } else if in_clint(addr) {
        if !valid_width(size) {
            Err(Fault::Hardware)
        } else {
            Ok(0)
        }
    } else if in_dram(addr) {
        if !valid_width(size) {
            Err(Fault::Hardware)
        } else if addr - DRAM_START + width_bytes(size) <= b.dram.len() {
            Ok(le_value(b.dram, addr - DRAM_START, width_bytes(size)) as u64)
        } else {
            Err(Fault::LoadAccess)
        }
    } else {
        Err(Fault::LoadAccess)
    }
}

/// What a bus write does: stores little-endian into main memory, appends
/// to the console output at the console's first cell, is discarded by the
/// stubs, and faults on the read-only boot blob, outside every region,
/// past the end of main memory, or (hardware error) on an unsupported
/// access width in any region.
pub open spec fn bus_write_spec(b: BusView, addr: u64, value: u64, size: u8) -> Result<
    BusView,
    Fault,
> {
    if in_dtb(addr) {
        Err(Fault::StoreAccess)
    } else if in_uart(addr) {
        if !valid_width(size) {
            Err(Fault::Hardware)
        } else if addr == UART_START {
            Ok(BusView { console: b.console.push((value % 0x100) as u8), ..b })
        } else {
            Ok(b)
        }
    } else if in_clint(addr) {
        if !valid_width(size) {
            Err(Fault::Hardware)
        } else {
            Ok(b)
        }
    } else if in_dram(addr) {
        if !valid_width(size) {
            Err(Fault::Hardware)
        } else if addr - DRAM_START + width_bytes(size) <= b.dram.len() {
            Ok(
                BusView {
                    dram: le_store(b.dram, addr - DRAM_START, width_bytes(size), value),
                    ..b
                },
            )
        } else {
            Err(Fault::StoreAccess)
        }
    } else {
        Err(Fault::StoreAccess)
    }
}

/// The dispatcher and the devices it owns.
pub struct Bus {
    pub dtb: Rom,
    pub dram: Dram,
    pub uart: Uart,
    pub clint: Clint,
}

impl View for Bus {
    type V = BusView;

    open spec fn view(&self) -> BusView {
        BusView { rom: self.dtb@, dram: self.dram@, console: self.uart@ }
    }
}

impl Bus {
    pub open spec fn wf(&self) -> bool {
        self.dram.wf()
    }

    /// Empty boot blob, zeroed main memory, no console output.
    pub fn new() -> (r: Bus)
        ensures
            r.wf(),
            r@.rom == Seq::<u8>::empty(),
            r@.console == Seq::<u8>::empty(),
            r@.dram.len() == DRAM_SIZE,
            forall|i: int| 0 <= i < DRAM_SIZE ==> r@.dram[i] == 0,
    {
        Bus { dtb: Rom::new(), dram: Dram::new(), uart: Uart::new(), clint: Clint::new() }
    }

    /// Routes a load to the region owning `addr`, rebased to the region
    /// start.
    pub fn read(&self, addr: u64, size: u8) -> (r: Result<u64, Exception>)
        requires
            self.wf(),
        ensures
            matches_fault(r, bus_read_spec(self@, addr, size)),
    {
        if DTB_START <= addr && addr < DTB_END {
            if !(size == 8 || size == 16 || size == 32 || size == 64) {
                Err(Exception::HardwareError)
            } else {
                let n = (size / 8) as u64;
                let local = addr - DTB_START;
                if local + n <= self.dtb.size() as u64 {
                    self.dtb.read(local, size)
                } else {
                    Err(Exception::LoadAccessFault)
                }
            }
        } else if UART_START <= addr && addr < UART_END {
            if !(size == 8 || size == 16 || size == 32 || size == 64) {
                Err(Exception::HardwareError)
            } else {
                self.uart.read(addr - UART_START, size)
            }
        } else if CLINT_START <= addr && addr < CLINT_END {
            if !(size == 8 || size == 16 || size == 32 || size == 64) {
                Err(Exception::HardwareError)
            } else {
                self.clint.read(addr - CLINT_START, size)
            }
        } else if DRAM_START <= addr && addr < DRAM_END {
            if !(size == 8 || size == 16 || size == 32 || size == 64) {
                Err(Exception::HardwareError)
            } else {
                let n = (size / 8) as u64;
                let local = addr - DRAM_START;
                if local + n <= DRAM_SIZE {
                    self.dram.read(local, size)
                } else {
                    Err(Exception::LoadAccessFault)
                }
            }
        } else {
            Err(Exception::LoadAccessFault)
        }
    }

    /// Routes a store to the region owning `addr`, rebased to the region
    /// start. On failure the machine state is unchanged.
    pub fn write(&mut self, addr: u64, value: u64, size: u8) -> (r: Result<(), Exception>)
        requires
            old(self).wf(),
        ensures
            final(self).wf(),
            match bus_write_spec(old(self)@, addr, value, size) {
                Ok(b2) => r is Ok && final(self)@ == b2,
                Err(f) => r is Err && fault_of(r->Err_0) == f && final(self)@ == old(self)@,
            },
    {
        if DTB_START <= addr && addr < DTB_END {
            Err(Exception::StoreAccessFault)
        } else if UART_START <= addr && addr < UART_END {
            if !(size == 8 || size == 16 || size == 32 || size == 64) {
                Err(Exception::HardwareError)
            } else {
                self.uart.write(addr - UART_START, value, size)
            }
        } else if CLINT_START <= addr && addr < CLINT_END {
            if !(size == 8 || size == 16 || size == 32 || size == 64) {
                Err(Exception::HardwareError)
            } else {
                self.clint.write(addr - CLINT_START, value, size)
            }
        } else if DRAM_START <= addr && addr < DRAM_END {
            if !(size == 8 || size == 16 || size == 32 || size == 64) {
                Err(Exception::HardwareError)
            } else {
                let n = (size / 8) as u64;
                let local = addr - DRAM_START;
                if local + n <= DRAM_SIZE {
                    self.dram.write(local, value, size)
                } else {
                    Err(Exception::StoreAccessFault)
                }
            }
        } else {
            Err(Exception::StoreAccessFault)
        }
    }
}

/// A successful bus read of `size` bits yields a value below `2^size`.
pub proof fn lemma_bus_read_bound(b: BusView, addr: u64, size: u8)
    requires
        valid_width(size),
    ensures
        bus_read_spec(b, addr, size) matches Ok(v) ==> (v as int) < pow2(size as nat),
{
    lemma_width_pow2();
    if in_dtb(addr) {
        lemma_le_value_bound(b.rom, addr - DTB_START, width_bytes(size));
    } else if in_dram(addr) {
        lemma_le_value_bound(b.dram, addr - DRAM_START, width_bytes(size));
    }
}

} // verus!
