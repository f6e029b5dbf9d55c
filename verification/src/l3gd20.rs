//! Driver for the attached gyroscope, spoken to over SPI with a dedicated
//! chip-select line.
//!
//! A register read sends the register address with the top bit set (and the
//! next bit forced low to stay inside the addressable range), then clocks a
//! dummy byte to collect the answer; a write sends the address with the top
//! two bits clear followed by the data byte.  The identity register must
//! answer 0xD4.

use vstd::prelude::*;

use crate::clocks::SyscfgRegs;
use crate::gpio;
use crate::gpio::GpioPort;
use crate::rcc;
use crate::rcc::RccRegs;
use crate::reg;
use crate::spi;
use crate::spi::SpiRegs;

verus! {

/// The byte the identity register must answer.
pub const WHO_AM_I_VALUE: u8 = 0xD4;

/// Errors the gyroscope driver reports.
#[derive(Clone, Copy, PartialEq, Eq, Structural, Debug)]
pub enum L3GD20Error {
    SpiTimeout,
    SpiBusError,
    IdCannotBeRead,
}

/// The gyroscope's register map.
#[derive(Clone, Copy, PartialEq, Eq, Structural, Debug)]
pub enum Register {
    WhoAmI,
    CtrlReg1,
    CtrlReg2,
    CtrlReg3,
    CtrlReg4,
    CtrlReg5,
    Reference,
    OutTemp,
    StatisReg,
    OutXL,
    OutXH,
    OutYL,
    OutYH,
    OutZL,
    OutZH,
    FifoCtrlReg,
    FifoSrcReg,
    Int1Reg,
    Int1Src,
    Int1ThsXH,
    Int1ThsXL,
    Int1ThsYH,
    Int1ThsZL,
    Int1ThsZH,
    Int1Duration,
}

impl Register {
    /// The register's address on the device.
    pub open spec fn spec_addr(self) -> u8 {
        match self {
            Register::WhoAmI => 0x0F,
            Register::CtrlReg1 => 0x20,
            Register::CtrlReg2 => 0x21,
            Register::CtrlReg3 => 0x22,
            Register::CtrlReg4 => 0x23,
            Register::CtrlReg5 => 0x24,
            Register::Reference => 0x25,
            Register::OutTemp => 0x26,
            Register::StatisReg => 0x27,
            Register::OutXL => 0x28,
            Register::OutXH => 0x29,
            Register::OutYL => 0x2A,
            Register::OutYH => 0x2B,
            Register::OutZL => 0x2C,
            Register::OutZH => 0x2D,
            Register::FifoCtrlReg => 0x2E,
            Register::FifoSrcReg => 0x2F,
            Register::Int1Reg => 0x30,
            Register::Int1Src => 0x31,
            Register::Int1ThsXH => 0x32,
            Register::Int1ThsXL => 0x33,
            Register::Int1ThsYH => 0x34,
            Register::Int1ThsZL => 0x35,
            Register::Int1ThsZH => 0x36,
            Register::Int1Duration => 0x37,
        }
    }

    /// The register's address on the device.
    pub fn addr(self) -> (a: u8)
        ensures
            a == self.spec_addr(),
    {
        match self {
            Register::WhoAmI => 0x0F,
            Register::CtrlReg1 => 0x20,
            Register::CtrlReg2 => 0x21,
            Register::CtrlReg3 => 0x22,
            Register::CtrlReg4 => 0x23,
            Register::CtrlReg5 => 0x24,
            Register::Reference => 0x25,
            Register::OutTemp => 0x26,
            Register::StatisReg => 0x27,
            Register::OutXL => 0x28,
            Register::OutXH => 0x29,
            Register::OutYL => 0x2A,
            Register::OutYH => 0x2B,
            Register::OutZL => 0x2C,
            Register::OutZH => 0x2D,
            Register::FifoCtrlReg => 0x2E,
            Register::FifoSrcReg => 0x2F,
            Register::Int1Reg => 0x30,
            Register::Int1Src => 0x31,
            Register::Int1ThsXH => 0x32,
            Register::Int1ThsXL => 0x33,
            Register::Int1ThsYH => 0x34,
            Register::Int1ThsZL => 0x35,
            Register::Int1ThsZH => 0x36,
            Register::Int1Duration => 0x37,
        }
    }
}

/// Power state of the device.
#[derive(Clone, Copy, PartialEq, Eq, Structural, Debug)]
pub enum OpMode {
    PowerDown,
    Sleep,
    Normal,
}

/// Full-scale range of the angular-rate measurement.
#[derive(Clone, Copy, PartialEq, Eq, Structural, Debug)]
pub enum Scale {
    _250Dps,
    _500Dps,
    _2000Dps,
}

/// The byte framing a register write on the bus: address with the top two
/// bits clear.
pub open spec fn spec_write_cmd(r: Register) -> u8 {
    r.spec_addr() & 0x3F
}

/// The byte framing a register read on the bus: address with the top bit set
/// and the next bit forced low.
pub open spec fn spec_read_cmd(r: Register) -> u8 {
    (r.spec_addr() | 0x80) & 0xBF
}

/// The byte framing a register write on the bus.
pub fn write_cmd(r: Register) -> (b: u8)
    ensures
        b == spec_write_cmd(r),
{
    r.addr() & 0x3F
}

/// The byte framing a register read on the bus.
pub fn read_cmd(r: Register) -> (b: u8)
    ensures
        b == spec_read_cmd(r),
{
    (r.addr() | 0x80) & 0xBF
}

/// The gyroscope device handle; exactly one is constructed by the
/// application and lives for the process duration.
pub struct L3GD20 {
}

impl L3GD20 {
    /// The device handle.
    pub fn new() -> (d: L3GD20) {
        L3GD20 {  }
    }

    /// Bring up the gyroscope's bus: clock the needed ports and the SPI
    /// peripheral, claim the chip-select pin, route the three bus pins to
    /// the SPI function, program the SPI control registers, select the
    /// interrupt source line, and finally enable the peripheral.
    pub fn init(
        &self,
        rcc: &mut RccRegs,
        pc: &mut GpioPort,
        pf: &mut GpioPort,
        spi: &mut SpiRegs,
        syscfg: &mut SyscfgRegs,
    ) -> (r: Result<(), ()>)
        ensures
            r == Ok::<(), ()>(()),
            *final(rcc) == (RccRegs {
                ahb1enr: old(rcc).ahb1enr | (rcc::AHB1_GPIOF | rcc::AHB1_GPIOA | rcc::AHB1_GPIOC),
                apb2enr: old(rcc).apb2enr | rcc::APB2_SPI5,
                ..*old(rcc)
            }),
            *final(pc) == gpio::spec_configure(
                *old(pc),
                1,
                gpio::Mode::Output,
                gpio::OutType::PushPull,
                gpio::OutSpeed::Low,
                gpio::PullType::NoPull,
            ),
            *final(pf) == spec_spi_pin(spec_spi_pin(spec_spi_pin(*old(pf), 7), 8), 9),
            final(spi).cr1 == reg::with_bit(spec_sensor_cr1(old(spi).cr1), 6, true),
            final(spi).cr2 == reg::with_bit(old(spi).cr2, 2, true),
            final(spi).tx@ == old(spi).tx@,
            final(spi).rx@ == old(spi).rx@,
            *final(syscfg) == (SyscfgRegs { exticr1: reg::with_field(old(syscfg).exticr1, 4, 4, 0) }),
    {
        rcc::set_ahb1_periph_clk(rcc, rcc::AHB1_GPIOF | rcc::AHB1_GPIOA | rcc::AHB1_GPIOC, true);
        rcc::set_apb2_periph_clk(rcc, rcc::APB2_SPI5, true);
        // Chip-select pin: plain output, resting state driven by the driver.
        let _ = gpio::configure(
            pc,
            1,
            gpio::Mode::Output,
            gpio::OutType::PushPull,
            gpio::OutSpeed::Low,
            gpio::PullType::NoPull,
        );
        // The three bus pins, routed to the SPI function at high speed.
        configure_spi_pin(pf, 7);
        configure_spi_pin(pf, 8);
        configure_spi_pin(pf, 9);
        // SPI control: full duplex, no CRC, 8-bit frames, clock divided by
        // eight, master role, clock idle high, sample on the second edge.
        reg::modify_bit(&mut spi.cr1, 15, false);
        reg::modify_bit(&mut spi.cr1, 13, false);
        reg::modify_bit(&mut spi.cr1, 11, false);
        reg::modify_field(&mut spi.cr1, 3, 3, 0b010);
        reg::modify_bit(&mut spi.cr1, 2, true);
        reg::modify_bit(&mut spi.cr1, 1, true);
        reg::modify_bit(&mut spi.cr1, 0, true);
        reg::modify_bit(&mut spi.cr2, 2, true);
        // Interrupt line 1 sourced from port A (the data-ready pin); the
        // interrupt controller itself is unmasked by the hardware shell.
        reg::modify_field(&mut syscfg.exticr1, 4, 4, 0b0000);
        reg::modify_bit(&mut spi.cr1, 6, true);
        Ok(())
    }

    /// Write one data byte to a device register: raise chip-select, send the
    /// write-framed address, send the byte, lower chip-select.
    pub fn write_reg(&self, spi: &mut SpiRegs, pc: &mut GpioPort, r: Register, dat: u8)
        ensures
            final(spi).tx@ == old(spi).tx@.push(spec_write_cmd(r) as u16).push(dat as u16),
            final(spi).rx@ == old(spi).rx@,
            final(spi).cr1 == old(spi).cr1,
            final(spi).cr2 == old(spi).cr2,
            *final(pc) == gpio::spec_write(gpio::spec_write(*old(pc), 1, true), 1, false),
    {
        let cmd = r.addr() & 0x3F;
        let _ = gpio::write(pc, 1, true);
        spi::send(spi, cmd as u16);
        spi::send(spi, dat as u16);
        let _ = gpio::write(pc, 1, false);
    }

    /// Read one device register: raise chip-select, send the read-framed
    /// address and discard the frame answered with it, clock a dummy frame
    /// and collect the answer's low byte, lower chip-select.
    pub fn read_reg(&self, spi: &mut SpiRegs, pc: &mut GpioPort, r: Register) -> (dat: u8)
        requires
            old(spi).rx@.len() >= 2,
        ensures
            dat == old(spi).rx@[1] as u8,
            final(spi).tx@ == old(spi).tx@.push(spec_read_cmd(r) as u16).push(0),
            final(spi).rx@ == old(spi).rx@.skip(2),
            final(spi).cr1 == old(spi).cr1,
            final(spi).cr2 == old(spi).cr2,
            *final(pc) == gpio::spec_write(gpio::spec_write(*old(pc), 1, true), 1, false),
    {
        let cmd = (r.addr() | 0x80) & 0xBF;
        let _ = gpio::write(pc, 1, true);
        spi::send(spi, cmd as u16);
        let _ = spi::recv(spi);
        spi::send(spi, 0x00);
        let frame = spi::recv(spi);
        let dat = #[verifier::truncate] (frame as u8);
        let _ = gpio::write(pc, 1, false);
        proof {
            assert(final(spi).rx@ =~= old(spi).rx@.skip(2));
        }
        dat
    }

    /// Check the device identity: read the identity register and compare the
    /// answer against the documented value.  The byte the device answered is
    /// the low byte of the second frame of the exchange; the check succeeds
    /// exactly when that byte is 0xD4.
    pub fn check_connection(&self, spi: &mut SpiRegs, pc: &mut GpioPort) -> (r: Result<
        (),
        L3GD20Error,
    >)
        requires
            old(spi).rx@.len() >= 2,
        ensures
            r == Ok::<(), L3GD20Error>(()) <==> old(spi).rx@[1] as u8 == WHO_AM_I_VALUE,
            r matches Err(e) ==> e == L3GD20Error::IdCannotBeRead,
            final(spi).tx@ == old(spi).tx@.push(spec_read_cmd(Register::WhoAmI) as u16).push(0),
            final(spi).rx@ == old(spi).rx@.skip(2),
            final(spi).cr1 == old(spi).cr1,
            final(spi).cr2 == old(spi).cr2,
            *final(pc) == gpio::spec_write(gpio::spec_write(*old(pc), 1, true), 1, false),
    {
        let id = self.read_reg(spi, pc, Register::WhoAmI);
        if id == WHO_AM_I_VALUE {
            Ok(())
        } else {
            Err(L3GD20Error::IdCannotBeRead)
        }
    }

    /// Handler body for the data-ready interrupt line; reserved as an
    /// extension point and intentionally empty.
    pub fn sensor_interrupt() {
    }
}

/// One bus pin after it was configured for the SPI alternate function at
/// high speed with no pull.
pub open spec fn spec_spi_pin(p: GpioPort, pin: u8) -> GpioPort {
    gpio::spec_set_alt_fn(
        gpio::spec_configure(
            p,
            pin,
            gpio::Mode::AltFn,
            gpio::OutType::PushPull,
            gpio::OutSpeed::High,
            gpio::PullType::NoPull,
        ),
        pin,
        gpio::AltFn::Spi123456,
    )
}

/// The sensor's SPI control word over a previous register value: full
/// duplex, no CRC, 8-bit frames, clock divided by eight, master, clock idle
/// high, sample on the second edge.
pub open spec fn spec_sensor_cr1(prev: u32) -> u32 {
    reg::with_bit(
        reg::with_bit(
            reg::with_bit(
                reg::with_field(
                    reg::with_bit(reg::with_bit(reg::with_bit(prev, 15, false), 13, false), 11, false),
                    3,
                    3,
                    0b010,
                ),
                2,
                true,
            ),
            1,
            true,
        ),
        0,
        true,
    )
}

/// Configure one pin for the SPI bus: alternate function, push-pull, high
/// speed, no pull, routed to the SPI function.
fn configure_spi_pin(port: &mut GpioPort, pin: u8)
    requires
        pin <= 15,
    ensures
        *final(port) == spec_spi_pin(*old(port), pin),
{
    let _ = gpio::configure(
        port,
        pin,
        gpio::Mode::AltFn,
        gpio::OutType::PushPull,
        gpio::OutSpeed::High,
        gpio::PullType::NoPull,
    );
    let _ = gpio::set_alt_fn(port, pin, gpio::AltFn::Spi123456);
}

} // verus!
