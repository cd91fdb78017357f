//! Device and dispatcher behavior: round trips through main memory, the
//! read-only boot blob, the stub devices, access faults, and the trap
//! cause codes.

use rv64emu::bus::{Bus, CLINT_START, DRAM_END, DRAM_START, DTB_START, UART_START};
use rv64emu::clint::Clint;
use rv64emu::dram::Dram;
use rv64emu::exception::Exception;
use rv64emu::rom::Rom;
use rv64emu::uart::Uart;
use rv64emu::isa::{mulh, mulhu};
use rv64emu::cpu::Cpu;

#[test]
fn dram_store_load_roundtrip_all_widths() {
    let mut d = Dram::new();
    d.write(0x10, 0xAB, 8).unwrap();
    assert_eq!(d.read(0x10, 8).unwrap(), 0xAB);
    d.write(0x20, 0xBEEF, 16).unwrap();
    assert_eq!(d.read(0x20, 16).unwrap(), 0xBEEF);
    d.write(0x30, 0xDEAD_BEEF, 32).unwrap();
    assert_eq!(d.read(0x30, 32).unwrap(), 0xDEAD_BEEF);
    d.write(0x40, 0x0123_4567_89AB_CDEF, 64).unwrap();
    assert_eq!(d.read(0x40, 64).unwrap(), 0x0123_4567_89AB_CDEF);
}

#[test]
fn dram_is_little_endian() {
    let mut d = Dram::new();
    d.write(0x100, 0x0102_0304, 32).unwrap();
    assert_eq!(d.read(0x100, 8).unwrap(), 0x04); // least significant first
    assert_eq!(d.read(0x101, 8).unwrap(), 0x03);
    assert_eq!(d.read(0x102, 8).unwrap(), 0x02);
    assert_eq!(d.read(0x103, 8).unwrap(), 0x01);
}

#[test]
fn dram_truncates_to_width() {
    let mut d = Dram::new();
    d.write(0x50, 0xFFFF_FFFF_FFFF_FFFF, 16).unwrap();
    assert_eq!(d.read(0x50, 16).unwrap(), 0xFFFF);
    assert_eq!(d.read(0x52, 16).unwrap(), 0); // neighbours untouched
}

#[test]
fn dram_rejects_unsupported_width() {
    let mut d = Dram::new();
    assert_eq!(d.read(0, 13).unwrap_err(), Exception::HardwareError);
    assert_eq!(d.write(0, 1, 48).unwrap_err(), Exception::HardwareError);
    assert_eq!(Exception::HardwareError.to_code(), 19);
}

#[test]
fn dram_load_places_image_at_start() {
    let mut d = Dram::new();
    d.load(&[1, 2, 3, 4]);
    assert_eq!(d.read(0, 32).unwrap(), 0x0403_0201);
}

#[test]
fn rom_reads_loaded_blob() {
    let mut r = Rom::new();
    assert_eq!(r.size(), 0);
    r.load(&[0x11, 0x22, 0x33, 0x44, 0x55, 0x66, 0x77, 0x88]);
    assert_eq!(r.size(), 8);
    assert_eq!(r.read(0, 8).unwrap(), 0x11);
    assert_eq!(r.read(0, 16).unwrap(), 0x2211);
    assert_eq!(r.read(0, 32).unwrap(), 0x4433_2211);
    assert_eq!(r.read(0, 64).unwrap(), 0x8877_6655_4433_2211);
    assert_eq!(r.read(0, 7).unwrap_err(), Exception::HardwareError);
}

#[test]
fn uart_buffers_bytes_written_at_offset_zero() {
    let mut u = Uart::new();
    u.write(0, 'h' as u64, 8).unwrap();
    u.write(0, 'i' as u64, 8).unwrap();
    u.write(4, 'x' as u64, 8).unwrap(); // other offsets are ignored
    assert_eq!(u.read(0, 32).unwrap(), 0);
    assert_eq!(u.take_output(), b"hi".to_vec());
    assert_eq!(u.take_output(), Vec::<u8>::new());
}

#[test]
fn clint_reads_zero_and_discards_writes() {
    let c = Clint::new();
    assert_eq!(c.read(0, 32).unwrap(), 0);
    c.write(0, 0xFFFF, 64).unwrap();
    assert_eq!(c.read(0, 64).unwrap(), 0);
}

#[test]
fn bus_routes_to_each_region() {
    let mut bus = Bus::new();
    bus.dtb.load(&[0xAA, 0xBB]);
    assert_eq!(bus.read(DTB_START, 16).unwrap(), 0xBBAA);
    assert_eq!(bus.read(UART_START, 32).unwrap(), 0);
    assert_eq!(bus.read(CLINT_START, 32).unwrap(), 0);
    bus.write(DRAM_START + 8, 7, 64).unwrap();
    assert_eq!(bus.read(DRAM_START + 8, 64).unwrap(), 7);
}

#[test]
fn bus_store_load_roundtrip_anywhere_in_dram() {
    let mut bus = Bus::new();
    for (addr, v) in [
        (DRAM_START, 0u64),
        (DRAM_START + 4, 0xFFFF_FFFF),
        (DRAM_START + 0x1000, 0x8000_0000),
        (DRAM_END - 4, 0x1234_5678),
    ] {
        bus.write(addr, v, 32).unwrap();
        assert_eq!(bus.read(addr, 32).unwrap(), v);
    }
}

#[test]
fn bus_console_write_reaches_uart_buffer() {
    let mut bus = Bus::new();
    bus.write(UART_START, 'A' as u64, 8).unwrap();
    bus.write(UART_START + 1, 'B' as u64, 8).unwrap(); // not the data cell
    assert_eq!(bus.uart.take_output(), b"A".to_vec());
}

#[test]
fn unmapped_read_faults_and_changes_nothing() {
    let mut bus = Bus::new();
    bus.write(DRAM_START, 0x77, 32).unwrap();
    assert_eq!(bus.read(0, 32).unwrap_err(), Exception::LoadAccessFault);
    assert_eq!(bus.read(0x500, 64).unwrap_err(), Exception::LoadAccessFault);
    assert_eq!(
        bus.write(0, 1, 32).unwrap_err(),
        Exception::StoreAccessFault
    );
    // The state is untouched by the faulting accesses.
    assert_eq!(bus.read(DRAM_START, 32).unwrap(), 0x77);
}

#[test]
fn rom_region_is_read_only() {
    let mut bus = Bus::new();
    bus.dtb.load(&[1, 2, 3, 4]);
    assert_eq!(
        bus.write(DTB_START, 9, 8).unwrap_err(),
        Exception::StoreAccessFault
    );
    assert_eq!(bus.read(DTB_START, 32).unwrap(), 0x0403_0201);
}

#[test]
fn rom_access_past_blob_faults() {
    let mut bus = Bus::new();
    bus.dtb.load(&[1, 2]);
    assert_eq!(bus.read(DTB_START, 16).unwrap(), 0x0201);
    assert_eq!(
        bus.read(DTB_START, 32).unwrap_err(),
        Exception::LoadAccessFault
    );
    assert_eq!(
        bus.read(DTB_START + 0x100, 8).unwrap_err(),
        Exception::LoadAccessFault
    );
}

#[test]
fn access_crossing_dram_end_faults() {
    let mut bus = Bus::new();
    assert_eq!(
        bus.read(DRAM_END - 2, 32).unwrap_err(),
        Exception::LoadAccessFault
    );
    assert_eq!(
        bus.write(DRAM_END - 1, 0, 64).unwrap_err(),
        Exception::StoreAccessFault
    );
    assert_eq!(bus.read(DRAM_END - 2, 16).unwrap(), 0);
}

#[test]
fn bus_rejects_unsupported_width_in_every_region() {
    let mut bus = Bus::new();
    bus.dtb.load(&[1, 2, 3, 4]);
    assert_eq!(
        bus.read(DRAM_START, 24).unwrap_err(),
        Exception::HardwareError
    );
    assert_eq!(bus.read(DTB_START, 3).unwrap_err(), Exception::HardwareError);
    assert_eq!(
        bus.read(UART_START, 12).unwrap_err(),
        Exception::HardwareError
    );
    assert_eq!(
        bus.read(CLINT_START, 0).unwrap_err(),
        Exception::HardwareError
    );
    assert_eq!(
        bus.write(UART_START, 1, 7).unwrap_err(),
        Exception::HardwareError
    );
    assert_eq!(
        bus.write(CLINT_START, 1, 48).unwrap_err(),
        Exception::HardwareError
    );
    // Nothing reached the console through the faulting write.
    assert_eq!(bus.uart.take_output(), Vec::<u8>::new());
}

#[test]
fn exception_cause_codes() {
    assert_eq!(Exception::IllegalInstruction("x").to_code(), 2);
    assert_eq!(Exception::LoadAddressMisaligned.to_code(), 4);
    assert_eq!(Exception::LoadAccessFault.to_code(), 5);
    assert_eq!(Exception::StoreAddressMisaligned.to_code(), 6);
    assert_eq!(Exception::StoreAccessFault.to_code(), 7);
    assert_eq!(Exception::ECallFromU.to_code(), 8);
    assert_eq!(Exception::ECallFromS.to_code(), 9);
    assert_eq!(Exception::ECallFromM.to_code(), 11);
    assert_eq!(Exception::HardwareError.to_code(), 19);
}

#[test]
fn mulh_matches_wide_multiplication() {
    for (a, b) in [
        (0u64, 0u64),
        (1, u64::MAX),
        (u64::MAX, u64::MAX),
        (0x8000_0000_0000_0000, 2),
        (0x1234_5678_9ABC_DEF0, 0x0FED_CBA9_8765_4321),
        (0xFFFF_FFFF_0000_0001, 0x7FFF_FFFF_FFFF_FFFF),
    ] {
        let su = ((a as u128) * (b as u128)) >> 64;
        assert_eq!(mulhu(a, b), su as u64);
        let ss = ((a as i64 as i128) * (b as i64 as i128)) >> 64;
        assert_eq!(mulh(a, b), ss as u64);
    }
}

#[test]
fn cpu_new_boot_state() {
    let cpu = Cpu::new();
    assert_eq!(cpu.pc(), 0);
    assert_eq!(cpu.read_reg(2), DRAM_END); // stack pointer
    assert_eq!(cpu.read_reg(11), DTB_START); // device-tree pointer in a1
    assert_eq!(cpu.read_csr(0x301), 0x8000_0000_0000_1000); // misa: RV64I
    assert_eq!(cpu.read_reg(1), 0);
}

#[test]
fn load_fault_leaves_engine_unchanged() {
    // LW x3, 0(x1) with x1 pointing nowhere.
    let mut cpu = Cpu::new();
    let w: u32 = (1 << 15) | (2 << 12) | (3 << 7) | 0x03;
    cpu.bus.dram.load(&w.to_le_bytes());
    cpu.set_pc(DRAM_START);
    cpu.write_reg(1, 0x10); // unmapped
    cpu.write_reg(3, 0x999);
    let e = cpu.execute().unwrap_err();
    assert_eq!(e, Exception::LoadAccessFault);
    assert_eq!(cpu.pc(), DRAM_START);
    assert_eq!(cpu.read_reg(3), 0x999);
}

#[test]
fn store_fault_leaves_engine_unchanged() {
    // SD x2, 0(x1) with x1 pointing nowhere.
    let mut cpu = Cpu::new();
    let w: u32 = (2 << 20) | (1 << 15) | (3 << 12) | 0x23;
    cpu.bus.dram.load(&w.to_le_bytes());
    cpu.set_pc(DRAM_START);
    cpu.write_reg(1, 0x10);
    cpu.write_reg(2, 0xABCD);
    let e = cpu.execute().unwrap_err();
    assert_eq!(e, Exception::StoreAccessFault);
    assert_eq!(cpu.pc(), DRAM_START);
}

#[test]
fn sb_to_console_emits_byte() {
    // SB x2, 0(x1) with x1 at the console base.
    let mut cpu = Cpu::new();
    let w: u32 = (2 << 20) | (1 << 15) | (0 << 12) | 0x23;
    cpu.bus.dram.load(&w.to_le_bytes());
    cpu.set_pc(DRAM_START);
    cpu.write_reg(1, UART_START);
    cpu.write_reg(2, '!' as u64);
    cpu.execute().unwrap();
    assert_eq!(cpu.bus.uart.take_output(), b"!".to_vec());
}
