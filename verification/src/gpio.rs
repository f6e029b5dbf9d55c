//! Pin-configuration service for a general-purpose I/O port.
//!
//! A port is modelled by [`GpioPort`], a block of plain 32-bit registers.
//! Every operation is bounds-checked: a pin index above 15 is rejected before
//! any register is touched.  Field updates go through [`crate::reg`], so each
//! contract states exactly which bits change and that all others are kept.
//!
//! The same logic serves every physical port; a port's wiring only limits
//! which pins exist and does not change the register layout.

use vstd::prelude::*;

use crate::reg;

verus! {

/// Error raised by any port operation on a pin index above 15.
#[derive(Clone, Copy, PartialEq, Eq, Structural, Debug)]
pub enum GpioError {
    InvalidPin,
}

/// Pin mode, a 2-bit field per pin.
#[derive(Clone, Copy, PartialEq, Eq, Structural, Debug)]
pub enum Mode {
    Input,
    Output,
    AltFn,
    Analog,
}

impl Mode {
    /// Field encoding of the mode.
    pub open spec fn spec_bits(self) -> u32 {
        match self {
            Mode::Input => 0b00,
            Mode::Output => 0b01,
            Mode::AltFn => 0b10,
            Mode::Analog => 0b11,
        }
    }

    /// Field encoding of the mode.
    pub fn bits(self) -> (b: u32)
        ensures
            b == self.spec_bits(),
    {
        match self {
            Mode::Input => 0b00,
            Mode::Output => 0b01,
            Mode::AltFn => 0b10,
            Mode::Analog => 0b11,
        }
    }
}

/// Output driver type, a 1-bit field per pin.
#[derive(Clone, Copy, PartialEq, Eq, Structural, Debug)]
pub enum OutType {
    PushPull,
    OpenDrain,
}

impl OutType {
    /// Field encoding of the output type.
    pub open spec fn spec_bits(self) -> u32 {
        match self {
            OutType::PushPull => 0,
            OutType::OpenDrain => 1,
        }
    }

    /// Field encoding of the output type.
    pub fn bits(self) -> (b: u32)
        ensures
            b == self.spec_bits(),
    {
        match self {
            OutType::PushPull => 0,
            OutType::OpenDrain => 1,
        }
    }
}

/// Output speed tier, a 2-bit field per pin.
#[derive(Clone, Copy, PartialEq, Eq, Structural, Debug)]
pub enum OutSpeed {
    Low,
    Medium,
    High,
    VeryHigh,
}

impl OutSpeed {
    /// Field encoding of the speed tier.
    pub open spec fn spec_bits(self) -> u32 {
        match self {
            OutSpeed::Low => 0b00,
            OutSpeed::Medium => 0b01,
            OutSpeed::High => 0b10,
            OutSpeed::VeryHigh => 0b11,
        }
    }

    /// Field encoding of the speed tier.
    pub fn bits(self) -> (b: u32)
        ensures
            b == self.spec_bits(),
    {
        match self {
            OutSpeed::Low => 0b00,
            OutSpeed::Medium => 0b01,
            OutSpeed::High => 0b10,
            OutSpeed::VeryHigh => 0b11,
        }
    }
}

/// Pull-up / pull-down configuration, a 2-bit field per pin.
#[derive(Clone, Copy, PartialEq, Eq, Structural, Debug)]
pub enum PullType {
    NoPull,
    PullUp,
    PullDown,
}

impl PullType {
    /// Field encoding of the pull configuration.
    pub open spec fn spec_bits(self) -> u32 {
        match self {
            PullType::NoPull => 0b00,
            PullType::PullUp => 0b01,
            PullType::PullDown => 0b10,
        }
    }

    /// Field encoding of the pull configuration.
    pub fn bits(self) -> (b: u32)
        ensures
            b == self.spec_bits(),
    {
        match self {
            PullType::NoPull => 0b00,
            PullType::PullUp => 0b01,
            PullType::PullDown => 0b10,
        }
    }
}

/// Alternate-function selector, a 4-bit field per pin.
#[derive(Clone, Copy, PartialEq, Eq, Structural, Debug)]
pub enum AltFn {
    Sys,
    Tim12,
    Tim345,
    Tim8910,
    I2c123,
    Spi123456,
    Spi23Sai1,
    Spi3Usart123,
    Usart6Uart4578,
    Can12Tim121314Lcd,
    Otg2HsOtg1Fs,
    Eth,
    FmcSdioOtg2Fs,
    Dcmi,
    Lcd,
    SysEvent,
}

impl AltFn {
    /// Field encoding of the alternate function.
    pub open spec fn spec_bits(self) -> u32 {
        match self {
            AltFn::Sys => 0,
            AltFn::Tim12 => 1,
            AltFn::Tim345 => 2,
            AltFn::Tim8910 => 3,
            AltFn::I2c123 => 4,
            AltFn::Spi123456 => 5,
            AltFn::Spi23Sai1 => 6,
            AltFn::Spi3Usart123 => 7,
            AltFn::Usart6Uart4578 => 8,
            AltFn::Can12Tim121314Lcd => 9,
            AltFn::Otg2HsOtg1Fs => 10,
            AltFn::Eth => 11,
            AltFn::FmcSdioOtg2Fs => 12,
            AltFn::Dcmi => 13,
            AltFn::Lcd => 14,
            AltFn::SysEvent => 15,
        }
    }

    /// Field encoding of the alternate function.
    pub fn bits(self) -> (b: u32)
        ensures
            b == self.spec_bits(),
    {
        match self {
            AltFn::Sys => 0,
            AltFn::Tim12 => 1,
            AltFn::Tim345 => 2,
            AltFn::Tim8910 => 3,
            AltFn::I2c123 => 4,
            AltFn::Spi123456 => 5,
            AltFn::Spi23Sai1 => 6,
            AltFn::Spi3Usart123 => 7,
            AltFn::Usart6Uart4578 => 8,
            AltFn::Can12Tim121314Lcd => 9,
            AltFn::Otg2HsOtg1Fs => 10,
            AltFn::Eth => 11,
            AltFn::FmcSdioOtg2Fs => 12,
            AltFn::Dcmi => 13,
            AltFn::Lcd => 14,
            AltFn::SysEvent => 15,
        }
    }
}

/// Register block of one general-purpose I/O port.
///
/// A set-or-reset request through the hardware's bit-set-reset register is
/// modelled by its effect on `odr`; the hardware register itself always reads
/// as zero and holds no state.
#[derive(Clone, Copy, PartialEq, Eq, Structural, Debug)]
pub struct GpioPort {
    /// Pin mode register, 2 bits per pin.
    pub moder: u32,
    /// Output type register, 1 bit per pin.
    pub otyper: u32,
    /// Output speed register, 2 bits per pin.
    pub ospeedr: u32,
    /// Pull-up / pull-down register, 2 bits per pin.
    pub pupdr: u32,
    /// Input data register, 1 bit per pin.
    pub idr: u32,
    /// Output data register, 1 bit per pin.
    pub odr: u32,
    /// Alternate-function register for pins 0-7, 4 bits per pin.
    pub afrl: u32,
    /// Alternate-function register for pins 8-15, 4 bits per pin.
    pub afrh: u32,
}

impl GpioPort {
    /// A port with every register cleared, the reset state of the model.
    pub fn new() -> (p: GpioPort)
        ensures
            p == (GpioPort {
                moder: 0,
                otyper: 0,
                ospeedr: 0,
                pupdr: 0,
                idr: 0,
                odr: 0,
                afrl: 0,
                afrh: 0,
            }),
    {
        GpioPort { moder: 0, otyper: 0, ospeedr: 0, pupdr: 0, idr: 0, odr: 0, afrl: 0, afrh: 0 }
    }
}

/// The port after `configure(pin, m, ot, os, pt)` succeeded.
pub open spec fn spec_configure(
    p: GpioPort,
    pin: u8,
    m: Mode,
    ot: OutType,
    os: OutSpeed,
    pt: PullType,
) -> GpioPort {
    GpioPort {
        moder: reg::with_field(p.moder, (pin * 2) as u32, 2, m.spec_bits()),
        otyper: reg::with_field(p.otyper, pin as u32, 1, ot.spec_bits()),
        ospeedr: reg::with_field(p.ospeedr, (pin * 2) as u32, 2, os.spec_bits()),
        pupdr: reg::with_field(p.pupdr, (pin * 2) as u32, 2, pt.spec_bits()),
        ..p
    }
}

/// The port after `set_alt_fn(pin, af)` succeeded.
pub open spec fn spec_set_alt_fn(p: GpioPort, pin: u8, af: AltFn) -> GpioPort {
    if pin > 7 {
        GpioPort {
            afrh: reg::with_field(p.afrh, ((pin - 8) * 4) as u32, 4, af.spec_bits()),
            ..p
        }
    } else {
        GpioPort { afrl: reg::with_field(p.afrl, (pin * 4) as u32, 4, af.spec_bits()), ..p }
    }
}

/// The level `read(pin)` reports: a bit test of the input data register.
pub open spec fn spec_read(p: GpioPort, pin: u8) -> bool {
    reg::get_bit(p.idr, pin as u32)
}

/// The port after `write(pin, level)` succeeded.
pub open spec fn spec_write(p: GpioPort, pin: u8, level: bool) -> GpioPort {
    GpioPort { odr: reg::with_bit(p.odr, pin as u32, level), ..p }
}

/// Configure mode, output type, output speed and pull for one pin.
///
/// Each parameter is read-modify-written into its register at the pin's bit
/// offset; no other pin's fields are disturbed.  A pin index above 15 is
/// rejected without touching any register.
pub fn configure(
    port: &mut GpioPort,
    pin: u8,
    m: Mode,
    ot: OutType,
    os: OutSpeed,
    pt: PullType,
) -> (r: Result<(), GpioError>)
    ensures
        pin <= 15 ==> r == Ok::<(), GpioError>(()) && *final(port) == spec_configure(
            *old(port),
            pin,
            m,
            ot,
            os,
            pt,
        ),
        pin > 15 ==> r == Err::<(), GpioError>(GpioError::InvalidPin) && *final(port) == *old(
            port,
        ),
{
    if pin > 15 {
        return Err(GpioError::InvalidPin);
    }
    let shift2: u32 = (pin as u32) * 2;
    reg::modify_field(&mut port.moder, shift2, 2, m.bits());
    reg::modify_field(&mut port.otyper, pin as u32, 1, ot.bits());
    reg::modify_field(&mut port.ospeedr, shift2, 2, os.bits());
    reg::modify_field(&mut port.pupdr, shift2, 2, pt.bits());
    Ok(())
}

/// Select the alternate function of one pin.
///
/// Pins 0-7 live in the low alternate-function register, pins 8-15 in the
/// high one, 4 bits per pin.  A pin index above 15 is rejected without
/// touching any register.
pub fn set_alt_fn(port: &mut GpioPort, pin: u8, af: AltFn) -> (r: Result<(), GpioError>)
    ensures
        pin <= 15 ==> r == Ok::<(), GpioError>(()) && *final(port) == spec_set_alt_fn(
            *old(port),
            pin,
            af,
        ),
        pin > 15 ==> r == Err::<(), GpioError>(GpioError::InvalidPin) && *final(port) == *old(
            port,
        ),
{
    if pin > 15 {
        return Err(GpioError::InvalidPin);
    }
    if pin > 7 {
        reg::modify_field(&mut port.afrh, ((pin - 8) as u32) * 4, 4, af.bits());
    } else {
        reg::modify_field(&mut port.afrl, (pin as u32) * 4, 4, af.bits());
    }
    Ok(())
}

/// Read the level of one pin: a bit test of the input data register.
///
/// A pin index above 15 is rejected.
pub fn read(port: &GpioPort, pin: u8) -> (r: Result<bool, GpioError>)
    ensures
        pin <= 15 ==> r == Ok::<bool, GpioError>(spec_read(*port, pin)),
        pin > 15 ==> r == Err::<bool, GpioError>(GpioError::InvalidPin),
{
    if pin > 15 {
        return Err(GpioError::InvalidPin);
    }
    Ok(reg::read_bit(port.idr, pin as u32))
}

/// Raise or lower one pin through a single set-or-reset request, avoiding any
/// read-modify-write of the output data register.
///
/// A pin index above 15 is rejected without touching any register.
pub fn write(port: &mut GpioPort, pin: u8, level: bool) -> (r: Result<(), GpioError>)
    ensures
        pin <= 15 ==> r == Ok::<(), GpioError>(()) && *final(port) == spec_write(
            *old(port),
            pin,
            level,
        ),
        pin > 15 ==> r == Err::<(), GpioError>(GpioError::InvalidPin) && *final(port) == *old(
            port,
        ),
{
    if pin > 15 {
        return Err(GpioError::InvalidPin);
    }
    reg::modify_bit(&mut port.odr, pin as u32, level);
    Ok(())
}

/// The word a single set-or-reset request carries: the pin's bit in the low
/// half raises the pin, the same bit in the high half lowers it.
pub open spec fn spec_bsrr_value(pin: u8, level: bool) -> u32 {
    if level {
        1u32 << (pin as u32)
    } else {
        1u32 << ((pin + 16) as u32)
    }
}

/// The word a single set-or-reset request carries for driving one pin.
pub fn bsrr_value(pin: u8, level: bool) -> (w: u32)
    requires
        pin <= 15,
    ensures
        w == spec_bsrr_value(pin, level),
{
    if level {
        1u32 << (pin as u32)
    } else {
        1u32 << ((pin as u32) + 16)
    }
}

/// Law: configuring a pin stores exactly the encoded mode, type, speed and
/// pull values in that pin's fields and leaves every bit outside those fields
/// in its pre-call state; the remaining registers of the port are untouched.
pub proof fn lemma_configure_preserves_unrelated(
    p: GpioPort,
    pin: u8,
    m: Mode,
    ot: OutType,
    os: OutSpeed,
    pt: PullType,
)
    requires
        pin <= 15,
    ensures
        ({
            let q = spec_configure(p, pin, m, ot, os, pt);
            &&& reg::get_field(q.moder, (pin * 2) as u32, 2) == m.spec_bits()
            &&& (q.moder ^ p.moder) & !reg::field_mask((pin * 2) as u32, 2) == 0
            &&& reg::get_field(q.otyper, pin as u32, 1) == ot.spec_bits()
            &&& (q.otyper ^ p.otyper) & !reg::field_mask(pin as u32, 1) == 0
            &&& reg::get_field(q.ospeedr, (pin * 2) as u32, 2) == os.spec_bits()
            &&& (q.ospeedr ^ p.ospeedr) & !reg::field_mask((pin * 2) as u32, 2) == 0
            &&& reg::get_field(q.pupdr, (pin * 2) as u32, 2) == pt.spec_bits()
            &&& (q.pupdr ^ p.pupdr) & !reg::field_mask((pin * 2) as u32, 2) == 0
            &&& q.idr == p.idr
            &&& q.odr == p.odr
            &&& q.afrl == p.afrl
            &&& q.afrh == p.afrh
        }),
{
    reg::lemma_mask_values();
    reg::lemma_field_update(p.moder, (pin * 2) as u32, 2, m.spec_bits());
    reg::lemma_field_update(p.otyper, pin as u32, 1, ot.spec_bits());
    reg::lemma_field_update(p.ospeedr, (pin * 2) as u32, 2, os.spec_bits());
    reg::lemma_field_update(p.pupdr, (pin * 2) as u32, 2, pt.spec_bits());
    reg::lemma_masked_identity(m.spec_bits(), 2);
    reg::lemma_masked_identity(ot.spec_bits(), 1);
    reg::lemma_masked_identity(os.spec_bits(), 2);
    reg::lemma_masked_identity(pt.spec_bits(), 2);
}

/// Law: the level written to a pin is observed by a subsequent read on a port
/// whose input data register mirrors its output data register — the
/// simulated-register loopback model of an output pin.
pub proof fn lemma_write_then_read(p: GpioPort, pin: u8, level: bool)
    requires
        pin <= 15,
    ensures
        ({
            let q = spec_write(p, pin, level);
            let looped = GpioPort { idr: q.odr, ..q };
            spec_read(looped, pin) == level
        }),
{
    reg::lemma_bit_update(p.odr, pin as u32, level);
}

} // verus!
