//! External memory: bounds and alignment checks, the command sequence, and
//! the word round trip.

use f429_bsp::gpio::GpioPort;
use f429_bsp::rcc::{self, RccRegs};
use f429_bsp::sdram::{self, FmcRegs, SdRamBank, SdRamError, SDRAM_SIZE};

#[test]
fn out_of_bounds_write_carries_exact_overrun() {
    // offset + length * 4 - bank size, byte for byte.
    let mut bank = SdRamBank::new();
    let fmc = FmcRegs::new();
    let buf = [1u32, 2, 3];
    let r = sdram::write_buffer(&mut bank, &fmc, &buf, SDRAM_SIZE - 8);
    assert_eq!(r, Err(SdRamError::OutOfBoundsAccess(4)));
    assert_eq!(bank.words[0x1F_FFFE], 0);
    let r = sdram::write_buffer(&mut bank, &fmc, &buf, SDRAM_SIZE);
    assert_eq!(r, Err(SdRamError::OutOfBoundsAccess(12)));
}

#[test]
fn out_of_bounds_read_carries_exact_overrun() {
    let bank = SdRamBank::new();
    let fmc = FmcRegs::new();
    let mut buf = vec![0u32; 4];
    let r = sdram::read_buffer(&bank, &fmc, &mut buf, SDRAM_SIZE - 4);
    assert_eq!(r, Err(SdRamError::OutOfBoundsAccess(12)));
}

#[test]
fn unaligned_access_carries_next_aligned_offset() {
    // offset + (4 - offset % 4), for each misalignment.
    let mut bank = SdRamBank::new();
    let fmc = FmcRegs::new();
    let buf = [7u32];
    for (addr, next) in [(1u32, 4u32), (2, 4), (3, 4), (5, 8), (6, 8), (7, 8), (4093, 4096)] {
        let r = sdram::write_buffer(&mut bank, &fmc, &buf, addr);
        assert_eq!(r, Err(SdRamError::UnalignedAccess(next)));
        let mut out = vec![0u32; 1];
        let r = sdram::read_buffer(&bank, &fmc, &mut out, addr);
        assert_eq!(r, Err(SdRamError::UnalignedAccess(next)));
    }
    assert_eq!(bank.words[0], 0);
    assert_eq!(bank.words[1], 0);
}

#[test]
fn bounds_error_precedes_alignment_error() {
    let mut bank = SdRamBank::new();
    let fmc = FmcRegs::new();
    let buf = [7u32];
    let r = sdram::write_buffer(&mut bank, &fmc, &buf, SDRAM_SIZE + 1);
    assert_eq!(r, Err(SdRamError::OutOfBoundsAccess(5)));
}

#[test]
fn refresh_error_on_write_path_only() {
    let mut bank = SdRamBank::new();
    let mut fmc = FmcRegs::new();
    fmc.sdsr = 1;  // refresh-error flag
    let buf = [7u32];
    assert_eq!(
        sdram::write_buffer(&mut bank, &fmc, &buf, 0),
        Err(SdRamError::RefreshError)
    );
    assert_eq!(bank.words[0], 0);
    let mut out = vec![0u32; 1];
    assert_eq!(sdram::read_buffer(&bank, &fmc, &mut out, 0), Ok(()));
}

#[test]
fn write_read_roundtrip() {
    let mut bank = SdRamBank::new();
    let fmc = FmcRegs::new();
    let buf = [0xDEAD_BEEFu32, 0x0123_4567, 0x89AB_CDEF];
    assert_eq!(sdram::write_buffer(&mut bank, &fmc, &buf, 8), Ok(()));
    let mut out = vec![0u32; 3];
    assert_eq!(sdram::read_buffer(&bank, &fmc, &mut out, 8), Ok(()));
    assert_eq!(out, vec![0xDEAD_BEEF, 0x0123_4567, 0x89AB_CDEF]);
    // The neighbouring words are untouched.
    assert_eq!(bank.words[1], 0);
    assert_eq!(bank.words[5], 0);
    assert_eq!(bank.words[2], 0xDEAD_BEEF);
}

#[test]
fn zero_length_access_at_end_of_bank() {
    let mut bank = SdRamBank::new();
    let fmc = FmcRegs::new();
    let buf: [u32; 0] = [];
    assert_eq!(sdram::write_buffer(&mut bank, &fmc, &buf, SDRAM_SIZE), Ok(()));
}

#[test]
fn init_sequence_issues_the_documented_commands_in_order() {
    // Clock enable, all-banks precharge, two auto-refresh commands, then
    // the mode-register-set command; refresh timer and write protection
    // follow.
    let mut fmc = FmcRegs::new();
    sdram::init_sequence(&mut fmc);
    assert_eq!(fmc.cmds, vec![0x29, 0x2A, 0x8B, 0x8B, 0x4622C]);
    assert_eq!(fmc.sdcmr, 0x4622C);
    assert_eq!(fmc.sdrtr, 1366 << 1);
    assert_eq!(fmc.sdcr2 & (1 << 9), 0);
}

#[test]
fn controller_bring_up_registers() {
    let mut rcc_regs = RccRegs::new();
    let mut fmc = FmcRegs::new();
    let mut pb = GpioPort::new();
    let mut pc = GpioPort::new();
    let mut pd = GpioPort::new();
    let mut pe = GpioPort::new();
    let mut pf = GpioPort::new();
    let mut pg = GpioPort::new();
    sdram::init(
        &mut rcc_regs,
        &mut fmc,
        &mut pb,
        &mut pc,
        &mut pd,
        &mut pe,
        &mut pf,
        &mut pg,
    );
    assert_eq!(rcc_regs.ahb3enr, rcc::AHB3_FMC);
    assert_eq!(
        rcc_regs.ahb1enr,
        rcc::AHB1_GPIOB
            | rcc::AHB1_GPIOC
            | rcc::AHB1_GPIOD
            | rcc::AHB1_GPIOE
            | rcc::AHB1_GPIOF
            | rcc::AHB1_GPIOG
    );
    assert_eq!(fmc.sdcr1, (0b01 << 13) | (0b10 << 10));
    assert_eq!(
        fmc.sdcr2,
        (0b11 << 7) | (1 << 6) | (0b01 << 4) | (0b01 << 2)
    );
    assert_eq!(fmc.sdtr1, (2 << 20) | (7 << 12));
    assert_eq!(
        fmc.sdtr2,
        (2 << 24) | (2 << 16) | (4 << 8) | (7 << 4) | 2
    );
    assert_eq!(fmc.cmds.len(), 5);
    // The bus pins: port B pins 5 and 6 in alternate-function mode at high
    // speed, routed to the external-memory function.
    assert_eq!(pb.moder, (0b10 << 10) | (0b10 << 12));
    assert_eq!(pb.ospeedr, (0b10 << 10) | (0b10 << 12));
    assert_eq!(pb.afrl, (12 << 20) | (12 << 24));
    assert_eq!(pb.otyper, 0);
    assert_eq!(pb.pupdr, 0);
    // Port G pins 0, 1, 4, 5, 8 and 15.
    assert_eq!(
        pg.moder,
        0b10 | (0b10 << 2) | (0b10 << 8) | (0b10 << 10) | (0b10 << 16) | (0b10 << 30)
    );
    assert_eq!(pg.afrl, 12 | (12 << 4) | (12 << 16) | (12 << 20));
    assert_eq!(pg.afrh, 12 | (12 << 28));
}
