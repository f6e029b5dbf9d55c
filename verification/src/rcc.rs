//! Reset and clock control: oscillator and PLL switches, bus prescalers,
//! per-peripheral clock enables and resets.
//!
//! The controller is modelled by [`RccRegs`].  Independently settable bits of
//! one register (clock enables, resets, interrupt lines) are addressed by
//! bitmasks built from the `*_` constants below, several of which may be
//! combined in one call; every operation is a read-modify-write whose
//! contract pins the new register value exactly.

use vstd::prelude::*;

use crate::reg;

verus! {

/// Error raised when a clock parameter lies outside its documented range.
#[derive(Clone, Copy, PartialEq, Eq, Structural, Debug)]
pub enum RccError {
    InvalidParameter,
}

// Clock control register: ready flags.
pub const CR_PLLSAIRDY: u32 = 0x2000_0000;

pub const CR_PLLI2SRDY: u32 = 0x0800_0000;

pub const CR_PLLRDY: u32 = 0x0200_0000;

pub const CR_HSERDY: u32 = 0x0002_0000;

pub const CR_HSIRDY: u32 = 0x0000_0002;

// Clock control register: enable switches.
pub const CR_PLLSAION: u32 = 0x1000_0000;

pub const CR_PLLI2SON: u32 = 0x0400_0000;

pub const CR_PLLON: u32 = 0x0100_0000;

pub const CR_CSSON: u32 = 0x0008_0000;

pub const CR_HSEBYP: u32 = 0x0004_0000;

pub const CR_HSEON: u32 = 0x0001_0000;

pub const CR_HSION: u32 = 0x0000_0001;

// AHB1 peripheral clock enable bits.
pub const AHB1_GPIOA: u32 = 0x0000_0001;

pub const AHB1_GPIOB: u32 = 0x0000_0002;

pub const AHB1_GPIOC: u32 = 0x0000_0004;

pub const AHB1_GPIOD: u32 = 0x0000_0008;

pub const AHB1_GPIOE: u32 = 0x0000_0010;

pub const AHB1_GPIOF: u32 = 0x0000_0020;

pub const AHB1_GPIOG: u32 = 0x0000_0040;

pub const AHB1_GPIOH: u32 = 0x0000_0080;

pub const AHB1_GPIOI: u32 = 0x0000_0100;

pub const AHB1_GPIOJ: u32 = 0x0000_0200;

pub const AHB1_GPIOK: u32 = 0x0000_0400;

pub const AHB1_CRC: u32 = 0x0000_1000;

pub const AHB1_DMA1: u32 = 0x0020_0000;

pub const AHB1_DMA2: u32 = 0x0040_0000;

pub const AHB1_DMA2D: u32 = 0x0080_0000;

// AHB3 peripheral clock enable bits.
pub const AHB3_FMC: u32 = 0x0000_0001;

// APB1 peripheral clock enable bits.
pub const APB1_PWR: u32 = 0x1000_0000;

// APB2 peripheral clock enable bits.
pub const APB2_SPI1: u32 = 0x0000_1000;

pub const APB2_SYSCFG: u32 = 0x0000_4000;

pub const APB2_SPI5: u32 = 0x0010_0000;

pub const APB2_SPI6: u32 = 0x0020_0000;

pub const APB2_SAI1: u32 = 0x0040_0000;

pub const APB2_LTDC: u32 = 0x0400_0000;

/// Register block of the reset and clock controller.
#[derive(Clone, Copy, PartialEq, Eq, Structural, Debug)]
pub struct RccRegs {
    /// Clock control register: oscillator and PLL switches and ready flags.
    pub cr: u32,
    /// Main PLL configuration register.
    pub pllcfgr: u32,
    /// Clock configuration register: source switch, prescalers, outputs.
    pub cfgr: u32,
    /// Clock interrupt register.
    pub cir: u32,
    /// AHB1 peripheral reset register.
    pub ahb1rstr: u32,
    /// AHB2 peripheral reset register.
    pub ahb2rstr: u32,
    /// AHB3 peripheral reset register.
    pub ahb3rstr: u32,
    /// APB1 peripheral reset register.
    pub apb1rstr: u32,
    /// APB2 peripheral reset register.
    pub apb2rstr: u32,
    /// AHB1 peripheral clock enable register.
    pub ahb1enr: u32,
    /// AHB2 peripheral clock enable register.
    pub ahb2enr: u32,
    /// AHB3 peripheral clock enable register.
    pub ahb3enr: u32,
    /// APB1 peripheral clock enable register.
    pub apb1enr: u32,
    /// APB2 peripheral clock enable register.
    pub apb2enr: u32,
    /// AHB1 low-power clock enable register.
    pub ahb1lpenr: u32,
    /// AHB2 low-power clock enable register.
    pub ahb2lpenr: u32,
    /// AHB3 low-power clock enable register.
    pub ahb3lpenr: u32,
    /// APB1 low-power clock enable register.
    pub apb1lpenr: u32,
    /// APB2 low-power clock enable register.
    pub apb2lpenr: u32,
    /// Backup domain control register.
    pub bdcr: u32,
    /// Control and status register: low-speed oscillator, reset flags.
    pub csr: u32,
    /// Spread-spectrum clock generation register.
    pub sscgr: u32,
    /// I2S PLL configuration register.
    pub plli2scfgr: u32,
    /// SAI PLL configuration register.
    pub pllsaicfgr: u32,
    /// Dedicated clock configuration register.
    pub dckcfgr: u32,
}

impl RccRegs {
    /// A controller with every register cleared, the reset state of the model.
    pub fn new() -> (r: RccRegs)
        ensures
            r == (RccRegs {
                cr: 0,
                pllcfgr: 0,
                cfgr: 0,
                cir: 0,
                ahb1rstr: 0,
                ahb2rstr: 0,
                ahb3rstr: 0,
                apb1rstr: 0,
                apb2rstr: 0,
                ahb1enr: 0,
                ahb2enr: 0,
                ahb3enr: 0,
                apb1enr: 0,
                apb2enr: 0,
                ahb1lpenr: 0,
                ahb2lpenr: 0,
                ahb3lpenr: 0,
                apb1lpenr: 0,
                apb2lpenr: 0,
                bdcr: 0,
                csr: 0,
                sscgr: 0,
                plli2scfgr: 0,
                pllsaicfgr: 0,
                dckcfgr: 0,
            }),
    {
        RccRegs {
            cr: 0,
            pllcfgr: 0,
            cfgr: 0,
            cir: 0,
            ahb1rstr: 0,
            ahb2rstr: 0,
            ahb3rstr: 0,
            apb1rstr: 0,
            apb2rstr: 0,
            ahb1enr: 0,
            ahb2enr: 0,
            ahb3enr: 0,
            apb1enr: 0,
            apb2enr: 0,
            ahb1lpenr: 0,
            ahb2lpenr: 0,
            ahb3lpenr: 0,
            apb1lpenr: 0,
            apb2lpenr: 0,
            bdcr: 0,
            csr: 0,
            sscgr: 0,
            plli2scfgr: 0,
            pllsaicfgr: 0,
            dckcfgr: 0,
        }
    }
}

/// A mask with the given bits set on `on == true`, cleared on `on == false`.
pub open spec fn apply_mask(reg_val: u32, mask: u32, on: bool) -> u32 {
    if on {
        reg_val | mask
    } else {
        reg_val & !mask
    }
}

/// Whether any of the ready flags in `mask` is set in the clock control
/// register.
pub fn check_flag(rcc: &RccRegs, mask: u32) -> (r: bool)
    ensures
        r == ((rcc.cr & mask) != 0),
{
    (rcc.cr & mask) != 0
}

/// Switch the oscillators and PLLs named by `mask` on or off; the ready flags
/// and all unrelated switches keep their value.
pub fn clock_ctrl(rcc: &mut RccRegs, mask: u32, state: bool)
    ensures
        *final(rcc) == (RccRegs { cr: apply_mask(old(rcc).cr, mask, state), ..*old(rcc) }),
{
    if state {
        reg::set_mask(&mut rcc.cr, mask);
    } else {
        reg::clear_mask(&mut rcc.cr, mask);
    }
}

/// Select the high-speed external oscillator (`true`) or the internal one
/// (`false`) as the main PLL input.
pub fn select_pll_src(rcc: &mut RccRegs, hse: bool)
    ensures
        *final(rcc) == (RccRegs { pllcfgr: reg::with_bit(old(rcc).pllcfgr, 22, hse), ..*old(
            rcc,
        ) }),
{
    reg::modify_bit(&mut rcc.pllcfgr, 22, hse);
}

/// Whether the main PLL parameters all lie in their documented ranges:
/// input divider 2-63, multiplier 50-432, first output divider one of
/// 2, 4, 6 or 8, second output divider 2-15.
pub open spec fn pll_params_valid(q: u8, n: u16, p: u8, m: u8) -> bool {
    &&& 2 <= q <= 15
    &&& 50 <= n <= 432
    &&& (p == 2 || p == 4 || p == 6 || p == 8)
    &&& 2 <= m <= 63
}

/// The PLL configuration register encoding the four parameters; the first
/// output divider `p` is stored as `p / 2 - 1`.
pub open spec fn spec_pllcfgr(prev: u32, q: u8, n: u16, p: u8, m: u8) -> u32 {
    reg::with_field(
        reg::with_field(
            reg::with_field(reg::with_field(prev, 24, 4, q as u32), 16, 2, (p / 2 - 1) as u32),
            6,
            9,
            n as u32,
        ),
        0,
        6,
        m as u32,
    )
}

/// Program the main PLL: second output divider `q`, multiplier `n`, first
/// output divider `p` (the divider value itself, one of 2, 4, 6, 8) and input
/// divider `m`.
///
/// A parameter outside its documented range is rejected before any register
/// is touched.
pub fn configure_pll(rcc: &mut RccRegs, q: u8, n: u16, p: u8, m: u8) -> (r: Result<(), RccError>)
    ensures
        pll_params_valid(q, n, p, m) ==> r == Ok::<(), RccError>(()) && *final(rcc) == (RccRegs {
            pllcfgr: spec_pllcfgr(old(rcc).pllcfgr, q, n, p, m),
            ..*old(rcc)
        }),
        !pll_params_valid(q, n, p, m) ==> r == Err::<(), RccError>(RccError::InvalidParameter)
            && *final(rcc) == *old(rcc),
{
    if q < 2 || q > 15 {
        return Err(RccError::InvalidParameter);
    }
    if n < 50 || n > 432 {
        return Err(RccError::InvalidParameter);
    }
    if !(p == 2 || p == 4 || p == 6 || p == 8) {
        return Err(RccError::InvalidParameter);
    }
    if m < 2 || m > 63 {
        return Err(RccError::InvalidParameter);
    }
    reg::modify_field(&mut rcc.pllcfgr, 24, 4, q as u32);
    reg::modify_field(&mut rcc.pllcfgr, 16, 2, (p / 2 - 1) as u32);
    reg::modify_field(&mut rcc.pllcfgr, 6, 9, n as u32);
    reg::modify_field(&mut rcc.pllcfgr, 0, 6, m as u32);
    Ok(())
}

/// Source selection for the second microcontroller clock output.
#[derive(Clone, Copy, PartialEq, Eq, Structural, Debug)]
pub enum Mco2ClockSrc {
    SysClk,
    PllI2s,
    Hse,
    Pll,
}

impl Mco2ClockSrc {
    /// Field encoding of the source.
    pub open spec fn spec_bits(self) -> u32 {
        match self {
            Mco2ClockSrc::SysClk => 0b00,
            Mco2ClockSrc::PllI2s => 0b01,
            Mco2ClockSrc::Hse => 0b10,
            Mco2ClockSrc::Pll => 0b11,
        }
    }

    /// Field encoding of the source.
    pub fn bits(self) -> (b: u32)
        ensures
            b == self.spec_bits(),
    {
        match self {
            Mco2ClockSrc::SysClk => 0b00,
            Mco2ClockSrc::PllI2s => 0b01,
            Mco2ClockSrc::Hse => 0b10,
            Mco2ClockSrc::Pll => 0b11,
        }
    }
}

/// Select the source of the second microcontroller clock output.
pub fn set_mco2_src(rcc: &mut RccRegs, clk: Mco2ClockSrc)
    ensures
        *final(rcc) == (RccRegs {
            cfgr: reg::with_field(old(rcc).cfgr, 30, 2, clk.spec_bits()),
            ..*old(rcc)
        }),
{
    reg::modify_field(&mut rcc.cfgr, 30, 2, clk.bits());
}

/// Source selection for the first microcontroller clock output.
#[derive(Clone, Copy, PartialEq, Eq, Structural, Debug)]
pub enum Mco1ClockSrc {
    Hsi,
    Lse,
    Hse,
    Pll,
}

impl Mco1ClockSrc {
    /// Field encoding of the source.
    pub open spec fn spec_bits(self) -> u32 {
        match self {
            Mco1ClockSrc::Hsi => 0b00,
            Mco1ClockSrc::Lse => 0b01,
            Mco1ClockSrc::Hse => 0b10,
            Mco1ClockSrc::Pll => 0b11,
        }
    }

    /// Field encoding of the source.
    pub fn bits(self) -> (b: u32)
        ensures
            b == self.spec_bits(),
    {
        match self {
            Mco1ClockSrc::Hsi => 0b00,
            Mco1ClockSrc::Lse => 0b01,
            Mco1ClockSrc::Hse => 0b10,
            Mco1ClockSrc::Pll => 0b11,
        }
    }
}

/// Select the source of the first microcontroller clock output.
pub fn set_mco1_src(rcc: &mut RccRegs, clk: Mco1ClockSrc)
    ensures
        *final(rcc) == (RccRegs {
            cfgr: reg::with_field(old(rcc).cfgr, 21, 2, clk.spec_bits()),
            ..*old(rcc)
        }),
{
    reg::modify_field(&mut rcc.cfgr, 21, 2, clk.bits());
}

/// Prescaler for a microcontroller clock output.
#[derive(Clone, Copy, PartialEq, Eq, Structural, Debug)]
pub enum McoPre {
    DivBy2,
    DivBy3,
    DivBy4,
    DivBy5,
}

impl McoPre {
    /// Field encoding of the prescaler.
    pub open spec fn spec_bits(self) -> u32 {
        match self {
            McoPre::DivBy2 => 0b100,
            McoPre::DivBy3 => 0b101,
            McoPre::DivBy4 => 0b110,
            McoPre::DivBy5 => 0b111,
        }
    }

    /// Field encoding of the prescaler.
    pub fn bits(self) -> (b: u32)
        ensures
            b == self.spec_bits(),
    {
        match self {
            McoPre::DivBy2 => 0b100,
            McoPre::DivBy3 => 0b101,
            McoPre::DivBy4 => 0b110,
            McoPre::DivBy5 => 0b111,
        }
    }
}

/// Set the prescaler of the second microcontroller clock output.
pub fn set_mco2_pre(rcc: &mut RccRegs, pre: McoPre)
    ensures
        *final(rcc) == (RccRegs {
            cfgr: reg::with_field(old(rcc).cfgr, 27, 3, pre.spec_bits()),
            ..*old(rcc)
        }),
{
    reg::modify_field(&mut rcc.cfgr, 27, 3, pre.bits());
}

/// Set the prescaler of the first microcontroller clock output.
pub fn set_mco1_pre(rcc: &mut RccRegs, pre: McoPre)
    ensures
        *final(rcc) == (RccRegs {
            cfgr: reg::with_field(old(rcc).cfgr, 24, 3, pre.spec_bits()),
            ..*old(rcc)
        }),
{
    reg::modify_field(&mut rcc.cfgr, 24, 3, pre.bits());
}

/// Input selection for the I2S PLL.
#[derive(Clone, Copy, PartialEq, Eq, Structural, Debug)]
pub enum I2sSrc {
    Hsi,
    Hse,
}

/// Select the I2S PLL input; the shared source bit is driven low for
/// either choice, keeping the internal oscillator selected.
pub fn set_plli2s_src(rcc: &mut RccRegs, is: I2sSrc)
    ensures
        *final(rcc) == (RccRegs { pllcfgr: reg::with_bit(old(rcc).pllcfgr, 22, false), ..*old(
            rcc,
        ) }),
{
    match is {
        I2sSrc::Hsi => reg::modify_bit(&mut rcc.pllcfgr, 22, false),
        I2sSrc::Hse => reg::modify_bit(&mut rcc.pllcfgr, 22, false),
    }
}

/// Program the oscillator divider feeding the real-time clock; a divider
/// above 31 is rejected before any register is touched.
pub fn set_rtc_div(rcc: &mut RccRegs, d: u8) -> (r: Result<(), RccError>)
    ensures
        d <= 31 ==> r == Ok::<(), RccError>(()) && *final(rcc) == (RccRegs {
            cfgr: reg::with_field(old(rcc).cfgr, 16, 5, d as u32),
            ..*old(rcc)
        }),
        d > 31 ==> r == Err::<(), RccError>(RccError::InvalidParameter) && *final(rcc) == *old(
            rcc,
        ),
{
    if d > 31 {
        return Err(RccError::InvalidParameter);
    }
    reg::modify_field(&mut rcc.cfgr, 16, 5, d as u32);
    Ok(())
}

/// Prescaler for one of the two peripheral buses.
#[derive(Clone, Copy, PartialEq, Eq, Structural, Debug)]
pub enum ApbPre {
    Div1,
    Div2,
    Div4,
    Div8,
    Div16,
}

impl ApbPre {
    /// Field encoding of the prescaler.
    pub open spec fn spec_bits(self) -> u32 {
        match self {
            ApbPre::Div1 => 0b000,
            ApbPre::Div2 => 0b100,
            ApbPre::Div4 => 0b101,
            ApbPre::Div8 => 0b110,
            ApbPre::Div16 => 0b111,
        }
    }

    /// Field encoding of the prescaler.
    pub fn bits(self) -> (b: u32)
        ensures
            b == self.spec_bits(),
    {
        match self {
            ApbPre::Div1 => 0b000,
            ApbPre::Div2 => 0b100,
            ApbPre::Div4 => 0b101,
            ApbPre::Div8 => 0b110,
            ApbPre::Div16 => 0b111,
        }
    }
}

/// Set the prescaler of the second peripheral bus.
pub fn set_apb2_pre(rcc: &mut RccRegs, ad: ApbPre)
    ensures
        *final(rcc) == (RccRegs {
            cfgr: reg::with_field(old(rcc).cfgr, 13, 3, ad.spec_bits()),
            ..*old(rcc)
        }),
{
    reg::modify_field(&mut rcc.cfgr, 13, 3, ad.bits());
}

/// Set the prescaler of the first peripheral bus.
pub fn set_apb1_pre(rcc: &mut RccRegs, ad: ApbPre)
    ensures
        *final(rcc) == (RccRegs {
            cfgr: reg::with_field(old(rcc).cfgr, 10, 3, ad.spec_bits()),
            ..*old(rcc)
        }),
{
    reg::modify_field(&mut rcc.cfgr, 10, 3, ad.bits());
}

/// Prescaler for the main system bus.
#[derive(Clone, Copy, PartialEq, Eq, Structural, Debug)]
pub enum AhbPre {
    Div1,
    Div2,
    Div4,
    Div8,
    Div16,
    Div64,
    Div128,
    Div256,
    Div512,
}

impl AhbPre {
    /// Field encoding of the prescaler.
    pub open spec fn spec_bits(self) -> u32 {
        match self {
            AhbPre::Div1 => 0b0000,
            AhbPre::Div2 => 0b1000,
            AhbPre::Div4 => 0b1001,
            AhbPre::Div8 => 0b1010,
            AhbPre::Div16 => 0b1011,
            AhbPre::Div64 => 0b1100,
            AhbPre::Div128 => 0b1101,
            AhbPre::Div256 => 0b1110,
            AhbPre::Div512 => 0b1111,
        }
    }

    /// Field encoding of the prescaler.
    pub fn bits(self) -> (b: u32)
        ensures
            b == self.spec_bits(),
    {
        match self {
            AhbPre::Div1 => 0b0000,
            AhbPre::Div2 => 0b1000,
            AhbPre::Div4 => 0b1001,
            AhbPre::Div8 => 0b1010,
            AhbPre::Div16 => 0b1011,
            AhbPre::Div64 => 0b1100,
            AhbPre::Div128 => 0b1101,
            AhbPre::Div256 => 0b1110,
            AhbPre::Div512 => 0b1111,
        }
    }
}

/// Set the prescaler of the main system bus.
pub fn set_ahb_pre(rcc: &mut RccRegs, ap: AhbPre)
    ensures
        *final(rcc) == (RccRegs {
            cfgr: reg::with_field(old(rcc).cfgr, 4, 4, ap.spec_bits()),
            ..*old(rcc)
        }),
{
    reg::modify_field(&mut rcc.cfgr, 4, 4, ap.bits());
}

/// System clock source selection.
#[derive(Clone, Copy, PartialEq, Eq, Structural, Debug)]
pub enum SysClkSrc {
    Hsi,
    Hse,
    Pll,
}

impl SysClkSrc {
    /// Field encoding of the source.
    pub open spec fn spec_bits(self) -> u32 {
        match self {
            SysClkSrc::Hsi => 0b00,
            SysClkSrc::Hse => 0b01,
            SysClkSrc::Pll => 0b10,
        }
    }

    /// Field encoding of the source.
    pub fn bits(self) -> (b: u32)
        ensures
            b == self.spec_bits(),
    {
        match self {
            SysClkSrc::Hsi => 0b00,
            SysClkSrc::Hse => 0b01,
            SysClkSrc::Pll => 0b10,
        }
    }

    /// The source a status field value denotes; unknown values fall back to
    /// the internal oscillator.
    pub open spec fn spec_from_bits(b: u32) -> SysClkSrc {
        if b == 1 {
            SysClkSrc::Hse
        } else if b == 2 {
            SysClkSrc::Pll
        } else {
            SysClkSrc::Hsi
        }
    }

    /// The source a status field value denotes; unknown values fall back to
    /// the internal oscillator.
    pub fn from_bits(b: u8) -> (r: SysClkSrc)
        ensures
            r == SysClkSrc::spec_from_bits(b as u32),
    {
        match b {
            0 => SysClkSrc::Hsi,
            1 => SysClkSrc::Hse,
            2 => SysClkSrc::Pll,
            _ => SysClkSrc::Hsi,
        }
    }
}

/// Read back which source currently drives the system clock.
pub fn get_sysclk_src(rcc: &RccRegs) -> (r: SysClkSrc)
    ensures
        r == SysClkSrc::spec_from_bits(reg::get_field(rcc.cfgr, 2, 2)),
{
    let bits = reg::read_field(rcc.cfgr, 2, 2);
    proof {
        reg::lemma_get_field_le(rcc.cfgr, 2, 2);
        reg::lemma_mask_values();
    }
    SysClkSrc::from_bits(bits as u8)
}

/// Request a switch of the system clock source; completion is reported by
/// the read-back status field, see [`get_sysclk_src`].
pub fn set_sysclk_src(rcc: &mut RccRegs, sw: SysClkSrc)
    ensures
        *final(rcc) == (RccRegs {
            cfgr: reg::with_field(old(rcc).cfgr, 0, 2, sw.spec_bits()),
            ..*old(rcc)
        }),
{
    reg::modify_field(&mut rcc.cfgr, 0, 2, sw.bits());
}

/// Acknowledge the clock interrupts named by `mask` by raising their clear
/// bits; all other interrupt lines keep their state.
pub fn clear_interrupt_flag(rcc: &mut RccRegs, mask: u32)
    ensures
        *final(rcc) == (RccRegs { cir: old(rcc).cir | mask, ..*old(rcc) }),
{
    reg::set_mask(&mut rcc.cir, mask);
}

/// Enable or disable the clock interrupts named by `mask`.
pub fn set_interrupt(rcc: &mut RccRegs, mask: u32, en: bool)
    ensures
        *final(rcc) == (RccRegs { cir: apply_mask(old(rcc).cir, mask, en), ..*old(rcc) }),
{
    if en {
        reg::set_mask(&mut rcc.cir, mask);
    } else {
        reg::clear_mask(&mut rcc.cir, mask);
    }
}

/// Whether every clock-interrupt flag named by `mask` is raised.
pub fn check_interrupt_flag(rcc: &RccRegs, mask: u32) -> (r: bool)
    ensures
        r == ((rcc.cir & mask) == mask),
{
    (rcc.cir & mask) == mask
}

/// Hold in or release from reset the AHB1 peripherals named by `mask`.
pub fn reset_ahb1_periph(rcc: &mut RccRegs, mask: u32, en: bool)
    ensures
        *final(rcc) == (RccRegs { ahb1rstr: apply_mask(old(rcc).ahb1rstr, mask, en), ..*old(
            rcc,
        ) }),
{
    if en {
        reg::set_mask(&mut rcc.ahb1rstr, mask);
    } else {
        reg::clear_mask(&mut rcc.ahb1rstr, mask);
    }
}

/// Hold in or release from reset the AHB2 peripherals named by `mask`.
pub fn reset_ahb2_periph(rcc: &mut RccRegs, mask: u32, en: bool)
    ensures
        *final(rcc) == (RccRegs { ahb2rstr: apply_mask(old(rcc).ahb2rstr, mask, en), ..*old(
            rcc,
        ) }),
{
    if en {
        reg::set_mask(&mut rcc.ahb2rstr, mask);
    } else {
        reg::clear_mask(&mut rcc.ahb2rstr, mask);
    }
}

/// Hold in or release from reset the AHB3 peripherals named by `mask`.
pub fn reset_ahb3_periph(rcc: &mut RccRegs, mask: u32, en: bool)
    ensures
        *final(rcc) == (RccRegs { ahb3rstr: apply_mask(old(rcc).ahb3rstr, mask, en), ..*old(
            rcc,
        ) }),
{
    if en {
        reg::set_mask(&mut rcc.ahb3rstr, mask);
    } else {
        reg::clear_mask(&mut rcc.ahb3rstr, mask);
    }
}

/// Hold in or release from reset the APB1 peripherals named by `mask`.
pub fn reset_apb1_periph(rcc: &mut RccRegs, mask: u32, en: bool)
    ensures
        *final(rcc) == (RccRegs { apb1rstr: apply_mask(old(rcc).apb1rstr, mask, en), ..*old(
            rcc,
        ) }),
{
    if en {
        reg::set_mask(&mut rcc.apb1rstr, mask);
    } else {
        reg::clear_mask(&mut rcc.apb1rstr, mask);
    }
}

/// Hold in or release from reset the APB2 peripherals named by `mask`.
pub fn reset_apb2_periph(rcc: &mut RccRegs, mask: u32, en: bool)
    ensures
        *final(rcc) == (RccRegs { apb2rstr: apply_mask(old(rcc).apb2rstr, mask, en), ..*old(
            rcc,
        ) }),
{
    if en {
        reg::set_mask(&mut rcc.apb2rstr, mask);
    } else {
        reg::clear_mask(&mut rcc.apb2rstr, mask);
    }
}

/// Gate on or off the clocks of the AHB1 peripherals named by `mask`.
pub fn set_ahb1_periph_clk(rcc: &mut RccRegs, mask: u32, en: bool)
    ensures
        *final(rcc) == (RccRegs { ahb1enr: apply_mask(old(rcc).ahb1enr, mask, en), ..*old(
            rcc,
        ) }),
{
    if en {
        reg::set_mask(&mut rcc.ahb1enr, mask);
    } else {
        reg::clear_mask(&mut rcc.ahb1enr, mask);
    }
}

/// Gate on or off the clocks of the AHB2 peripherals named by `mask`.
pub fn set_ahb2_periph_clk(rcc: &mut RccRegs, mask: u32, en: bool)
    ensures
        *final(rcc) == (RccRegs { ahb2enr: apply_mask(old(rcc).ahb2enr, mask, en), ..*old(
            rcc,
        ) }),
{
    if en {
        reg::set_mask(&mut rcc.ahb2enr, mask);
    } else {
        reg::clear_mask(&mut rcc.ahb2enr, mask);
    }
}

/// Gate on or off the clocks of the AHB3 peripherals named by `mask`.
pub fn set_ahb3_periph_clk(rcc: &mut RccRegs, mask: u32, en: bool)
    ensures
        *final(rcc) == (RccRegs { ahb3enr: apply_mask(old(rcc).ahb3enr, mask, en), ..*old(
            rcc,
        ) }),
{
    if en {
        reg::set_mask(&mut rcc.ahb3enr, mask);
    } else {
        reg::clear_mask(&mut rcc.ahb3enr, mask);
    }
}

/// Gate on or off the clocks of the APB1 peripherals named by `mask`.
pub fn set_apb1_periph_clk(rcc: &mut RccRegs, mask: u32, en: bool)
    ensures
        *final(rcc) == (RccRegs { apb1enr: apply_mask(old(rcc).apb1enr, mask, en), ..*old(
            rcc,
        ) }),
{
    if en {
        reg::set_mask(&mut rcc.apb1enr, mask);
    } else {
        reg::clear_mask(&mut rcc.apb1enr, mask);
    }
}

/// Gate on or off the clocks of the APB2 peripherals named by `mask`.
pub fn set_apb2_periph_clk(rcc: &mut RccRegs, mask: u32, en: bool)
    ensures
        *final(rcc) == (RccRegs { apb2enr: apply_mask(old(rcc).apb2enr, mask, en), ..*old(
            rcc,
        ) }),
{
    if en {
        reg::set_mask(&mut rcc.apb2enr, mask);
    } else {
        reg::clear_mask(&mut rcc.apb2enr, mask);
    }
}

/// Gate on or off the low-power clocks of the AHB1 peripherals named by
/// `mask`.
pub fn set_lp_ahb1_periph_clk(rcc: &mut RccRegs, mask: u32, en: bool)
    ensures
        *final(rcc) == (RccRegs { ahb1lpenr: apply_mask(old(rcc).ahb1lpenr, mask, en), ..*old(
            rcc,
        ) }),
{
    if en {
        reg::set_mask(&mut rcc.ahb1lpenr, mask);
    } else {
        reg::clear_mask(&mut rcc.ahb1lpenr, mask);
    }
}

/// Gate on or off the low-power clocks of the AHB2 peripherals named by
/// `mask`.
pub fn set_lp_ahb2_periph_clk(rcc: &mut RccRegs, mask: u32, en: bool)
    ensures
        *final(rcc) == (RccRegs { ahb2lpenr: apply_mask(old(rcc).ahb2lpenr, mask, en), ..*old(
            rcc,
        ) }),
{
    if en {
        reg::set_mask(&mut rcc.ahb2lpenr, mask);
    } else {
        reg::clear_mask(&mut rcc.ahb2lpenr, mask);
    }
}

/// Gate on or off the low-power clocks of the AHB3 peripherals named by
/// `mask`.
pub fn set_lp_ahb3_periph_clk(rcc: &mut RccRegs, mask: u32, en: bool)
    ensures
        *final(rcc) == (RccRegs { ahb3lpenr: apply_mask(old(rcc).ahb3lpenr, mask, en), ..*old(
            rcc,
        ) }),
{
    if en {
        reg::set_mask(&mut rcc.ahb3lpenr, mask);
    } else {
        reg::clear_mask(&mut rcc.ahb3lpenr, mask);
    }
}

/// Gate on or off the low-power clocks of the APB1 peripherals named by
/// `mask`.
pub fn set_lp_apb1_periph_clk(rcc: &mut RccRegs, mask: u32, en: bool)
    ensures
        *final(rcc) == (RccRegs { apb1lpenr: apply_mask(old(rcc).apb1lpenr, mask, en), ..*old(
            rcc,
        ) }),
{
    if en {
        reg::set_mask(&mut rcc.apb1lpenr, mask);
    } else {
        reg::clear_mask(&mut rcc.apb1lpenr, mask);
    }
}

/// Gate on or off the low-power clocks of the APB2 peripherals named by
/// `mask`.
pub fn set_lp_apb2_periph_clk(rcc: &mut RccRegs, mask: u32, en: bool)
    ensures
        *final(rcc) == (RccRegs { apb2lpenr: apply_mask(old(rcc).apb2lpenr, mask, en), ..*old(
            rcc,
        ) }),
{
    if en {
        reg::set_mask(&mut rcc.apb2lpenr, mask);
    } else {
        reg::clear_mask(&mut rcc.apb2lpenr, mask);
    }
}

/// Assert or release the backup-domain reset line.
pub fn reset_backup_domain(rcc: &mut RccRegs, en: bool)
    ensures
        *final(rcc) == (RccRegs { bdcr: reg::with_bit(old(rcc).bdcr, 16, en), ..*old(rcc) }),
{
    reg::modify_bit(&mut rcc.bdcr, 16, en);
}

/// Enable or disable the real-time clock.
pub fn set_rtc(rcc: &mut RccRegs, en: bool)
    ensures
        *final(rcc) == (RccRegs { bdcr: reg::with_bit(old(rcc).bdcr, 15, en), ..*old(rcc) }),
{
    reg::modify_bit(&mut rcc.bdcr, 15, en);
}

/// Clock source for the real-time clock.
#[derive(Clone, Copy, PartialEq, Eq, Structural, Debug)]
pub enum RtcClkSrc {
    NoClk,
    Lse,
    Lsi,
    Hse,
}

impl RtcClkSrc {
    /// Field encoding of the source.
    pub open spec fn spec_bits(self) -> u32 {
        match self {
            RtcClkSrc::NoClk => 0b00,
            RtcClkSrc::Lse => 0b01,
            RtcClkSrc::Lsi => 0b10,
            RtcClkSrc::Hse => 0b11,
        }
    }

    /// Field encoding of the source.
    pub fn bits(self) -> (b: u32)
        ensures
            b == self.spec_bits(),
    {
        match self {
            RtcClkSrc::NoClk => 0b00,
            RtcClkSrc::Lse => 0b01,
            RtcClkSrc::Lsi => 0b10,
            RtcClkSrc::Hse => 0b11,
        }
    }
}

/// Select the clock source of the real-time clock.
pub fn set_rtc_clk_src(rcc: &mut RccRegs, rcs: RtcClkSrc)
    ensures
        *final(rcc) == (RccRegs {
            bdcr: reg::with_field(old(rcc).bdcr, 8, 2, rcs.spec_bits()),
            ..*old(rcc)
        }),
{
    reg::modify_field(&mut rcc.bdcr, 8, 2, rcs.bits());
}

/// Enable or disable the low-speed external oscillator bypass.
pub fn enable_lse_bypass(rcc: &mut RccRegs, en: bool)
    ensures
        *final(rcc) == (RccRegs { bdcr: reg::with_bit(old(rcc).bdcr, 2, en), ..*old(rcc) }),
{
    reg::modify_bit(&mut rcc.bdcr, 2, en);
}

/// Switch the low-speed external oscillator on or off.
pub fn set_lse(rcc: &mut RccRegs, en: bool)
    ensures
        *final(rcc) == (RccRegs { bdcr: reg::with_bit(old(rcc).bdcr, 0, en), ..*old(rcc) }),
{
    reg::modify_bit(&mut rcc.bdcr, 0, en);
}

/// Whether the low-speed external oscillator reports ready.
pub fn get_lse_status(rcc: &RccRegs) -> (r: bool)
    ensures
        r == reg::get_bit(rcc.bdcr, 1),
{
    reg::read_bit(rcc.bdcr, 1)
}

/// The raised reset-cause flags, as a mask over the high byte of the control
/// and status register.
pub fn get_reset_flag(rcc: &RccRegs) -> (r: u32)
    ensures
        r == (rcc.csr & 0xff00_0000),
{
    rcc.csr & 0xff00_0000
}

/// Clear every reset-cause flag by raising the remove-flag bit.
pub fn clear_reset_flag(rcc: &mut RccRegs)
    ensures
        *final(rcc) == (RccRegs { csr: reg::with_bit(old(rcc).csr, 24, true), ..*old(rcc) }),
{
    reg::modify_bit(&mut rcc.csr, 24, true);
}

/// Whether the low-speed internal oscillator reports ready.
pub fn check_lsi_flag(rcc: &RccRegs) -> (r: bool)
    ensures
        r == reg::get_bit(rcc.csr, 1),
{
    reg::read_bit(rcc.csr, 1)
}

/// Switch the low-speed internal oscillator on or off.
pub fn set_lsi(rcc: &mut RccRegs, en: bool)
    ensures
        *final(rcc) == (RccRegs { csr: reg::with_bit(old(rcc).csr, 0, en), ..*old(rcc) }),
{
    reg::modify_bit(&mut rcc.csr, 0, en);
}

/// Enable or disable spread-spectrum modulation.
pub fn set_sspm(rcc: &mut RccRegs, en: bool)
    ensures
        *final(rcc) == (RccRegs { sscgr: reg::with_bit(old(rcc).sscgr, 31, en), ..*old(rcc) }),
{
    reg::modify_bit(&mut rcc.sscgr, 31, en);
}

/// Select down-spread (`true`) or center-spread (`false`) modulation.
pub fn select_spread(rcc: &mut RccRegs, down: bool)
    ensures
        *final(rcc) == (RccRegs { sscgr: reg::with_bit(old(rcc).sscgr, 30, down), ..*old(
            rcc,
        ) }),
{
    reg::modify_bit(&mut rcc.sscgr, 30, down);
}

/// Program the spread-spectrum increment step; a step above 32767 is
/// rejected before any register is touched.
pub fn set_sscg_inc_step(rcc: &mut RccRegs, is: u16) -> (r: Result<(), RccError>)
    ensures
        is <= 32767 ==> r == Ok::<(), RccError>(()) && *final(rcc) == (RccRegs {
            sscgr: reg::with_field(old(rcc).sscgr, 13, 15, is as u32),
            ..*old(rcc)
        }),
        is > 32767 ==> r == Err::<(), RccError>(RccError::InvalidParameter) && *final(rcc)
            == *old(rcc),
{
    if is > 32767 {
        return Err(RccError::InvalidParameter);
    }
    reg::modify_field(&mut rcc.sscgr, 13, 15, is as u32);
    Ok(())
}

/// Program the spread-spectrum modulation period; a period above 4095 is
/// rejected before any register is touched.
pub fn set_sscg_mod_period(rcc: &mut RccRegs, mp: u16) -> (r: Result<(), RccError>)
    ensures
        mp <= 4095 ==> r == Ok::<(), RccError>(()) && *final(rcc) == (RccRegs {
            sscgr: reg::with_field(old(rcc).sscgr, 0, 13, mp as u32),
            ..*old(rcc)
        }),
        mp > 4095 ==> r == Err::<(), RccError>(RccError::InvalidParameter) && *final(rcc)
            == *old(rcc),
{
    if mp > 4095 {
        return Err(RccError::InvalidParameter);
    }
    reg::modify_field(&mut rcc.sscgr, 0, 13, mp as u32);
    Ok(())
}

/// Whether the I2S PLL parameters all lie in their documented ranges.
pub open spec fn i2s_pll_params_valid(r: u8, q: u8, n: u16) -> bool {
    &&& 2 <= r <= 7
    &&& 2 <= q <= 15
    &&& 50 <= n <= 432
}

/// The I2S PLL configuration register encoding the three parameters.
pub open spec fn spec_plli2scfgr(prev: u32, r: u8, q: u8, n: u16) -> u32 {
    reg::with_field(
        reg::with_field(reg::with_field(prev, 28, 3, r as u32), 6, 9, n as u32),
        24,
        4,
        q as u32,
    )
}

/// Program the I2S PLL: output divider `r`, second divider `q` and
/// multiplier `n`, each validated against its documented range before any
/// register is touched.
pub fn conf_i2s_pll(rcc: &mut RccRegs, r: u8, q: u8, n: u16) -> (res: Result<(), RccError>)
    ensures
        i2s_pll_params_valid(r, q, n) ==> res == Ok::<(), RccError>(()) && *final(rcc)
            == (RccRegs { plli2scfgr: spec_plli2scfgr(old(rcc).plli2scfgr, r, q, n), ..*old(
            rcc,
        ) }),
        !i2s_pll_params_valid(r, q, n) ==> res == Err::<(), RccError>(RccError::InvalidParameter)
            && *final(rcc) == *old(rcc),
{
    if r < 2 || r > 7 {
        return Err(RccError::InvalidParameter);
    }
    if n < 50 || n > 432 {
        return Err(RccError::InvalidParameter);
    }
    if q < 2 || q > 15 {
        return Err(RccError::InvalidParameter);
    }
    reg::modify_field(&mut rcc.plli2scfgr, 28, 3, r as u32);
    reg::modify_field(&mut rcc.plli2scfgr, 6, 9, n as u32);
    reg::modify_field(&mut rcc.plli2scfgr, 24, 4, q as u32);
    Ok(())
}

/// Whether the SAI PLL parameters all lie in their documented ranges.
pub open spec fn sai_pll_params_valid(r: u8, q: u8, n: u16) -> bool {
    &&& 2 <= r <= 7
    &&& 2 <= q <= 15
    &&& 50 <= n <= 432
}

/// The SAI PLL configuration register encoding the three parameters.
pub open spec fn spec_pllsaicfgr(prev: u32, r: u8, q: u8, n: u16) -> u32 {
    reg::with_field(
        reg::with_field(reg::with_field(prev, 28, 3, r as u32), 6, 9, n as u32),
        24,
        4,
        q as u32,
    )
}

/// Program the SAI PLL: output divider `r`, second divider `q` and
/// multiplier `n`, validated before any register is touched.
pub fn conf_sai_pll(rcc: &mut RccRegs, r: u8, q: u8, n: u16) -> (res: Result<(), RccError>)
    ensures
        sai_pll_params_valid(r, q, n) ==> res == Ok::<(), RccError>(()) && *final(rcc)
            == (RccRegs { pllsaicfgr: spec_pllsaicfgr(old(rcc).pllsaicfgr, r, q, n), ..*old(
            rcc,
        ) }),
        !sai_pll_params_valid(r, q, n) ==> res == Err::<(), RccError>(RccError::InvalidParameter)
            && *final(rcc) == *old(rcc),
{
    if r < 2 || r > 7 {
        return Err(RccError::InvalidParameter);
    }
    if q < 2 || q > 15 {
        return Err(RccError::InvalidParameter);
    }
    if n < 50 || n > 432 {
        return Err(RccError::InvalidParameter);
    }
    reg::modify_field(&mut rcc.pllsaicfgr, 28, 3, r as u32);
    reg::modify_field(&mut rcc.pllsaicfgr, 6, 9, n as u32);
    reg::modify_field(&mut rcc.pllsaicfgr, 24, 4, q as u32);
    Ok(())
}

/// Timer clock multiplier selection.
#[derive(Clone, Copy, PartialEq, Eq, Structural, Debug)]
pub enum TimMul {
    Time2,
    Time4,
}

/// Select the timer clock multiplier.
pub fn set_timers_freq(rcc: &mut RccRegs, m: TimMul)
    ensures
        *final(rcc) == (RccRegs {
            dckcfgr: reg::with_bit(old(rcc).dckcfgr, 24, m == TimMul::Time4),
            ..*old(rcc)
        }),
{
    match m {
        TimMul::Time2 => reg::modify_bit(&mut rcc.dckcfgr, 24, false),
        TimMul::Time4 => reg::modify_bit(&mut rcc.dckcfgr, 24, true),
    }
}

/// Clock source for the second sub-block of the audio interface.
#[derive(Clone, Copy, PartialEq, Eq, Structural, Debug)]
pub enum Sai1BClkSrc {
    FSaiQDivQ,
    FI2sQDivQ,
    FAltInFreq,
}

impl Sai1BClkSrc {
    /// Field encoding of the source.
    pub open spec fn spec_bits(self) -> u32 {
        match self {
            Sai1BClkSrc::FSaiQDivQ => 0b00,
            Sai1BClkSrc::FI2sQDivQ => 0b01,
            Sai1BClkSrc::FAltInFreq => 0b10,
        }
    }

    /// Field encoding of the source.
    pub fn bits(self) -> (b: u32)
        ensures
            b == self.spec_bits(),
    {
        match self {
            Sai1BClkSrc::FSaiQDivQ => 0b00,
            Sai1BClkSrc::FI2sQDivQ => 0b01,
            Sai1BClkSrc::FAltInFreq => 0b10,
        }
    }
}

/// Select the clock source of the second audio sub-block.
pub fn set_sai1b_clk_src(rcc: &mut RccRegs, sbcs: Sai1BClkSrc)
    ensures
        *final(rcc) == (RccRegs {
            dckcfgr: reg::with_field(old(rcc).dckcfgr, 22, 2, sbcs.spec_bits()),
            ..*old(rcc)
        }),
{
    reg::modify_field(&mut rcc.dckcfgr, 22, 2, sbcs.bits());
}

/// Clock source for the first sub-block of the audio interface.
#[derive(Clone, Copy, PartialEq, Eq, Structural, Debug)]
pub enum Sai1AClkSrc {
    FSai1AQDivQ,
    FI2sQDivQ,
    FAltInFreq,
}

impl Sai1AClkSrc {
    /// Field encoding of the source.
    pub open spec fn spec_bits(self) -> u32 {
        match self {
            Sai1AClkSrc::FSai1AQDivQ => 0b00,
            Sai1AClkSrc::FI2sQDivQ => 0b01,
            Sai1AClkSrc::FAltInFreq => 0b10,
        }
    }

    /// Field encoding of the source.
    pub fn bits(self) -> (b: u32)
        ensures
            b == self.spec_bits(),
    {
        match self {
            Sai1AClkSrc::FSai1AQDivQ => 0b00,
            Sai1AClkSrc::FI2sQDivQ => 0b01,
            Sai1AClkSrc::FAltInFreq => 0b10,
        }
    }
}

/// Select the clock source of the first audio sub-block.
pub fn set_sai1a_clk_src(rcc: &mut RccRegs, sacs: Sai1AClkSrc)
    ensures
        *final(rcc) == (RccRegs {
            dckcfgr: reg::with_field(old(rcc).dckcfgr, 20, 2, sacs.spec_bits()),
            ..*old(rcc)
        }),
{
    reg::modify_field(&mut rcc.dckcfgr, 20, 2, sacs.bits());
}

/// Division factor applied to the SAI PLL output that feeds the display
/// pixel clock.
#[derive(Clone, Copy, PartialEq, Eq, Structural, Debug)]
pub enum LcdPllSaiDiv {
    Div2,
    Div4,
    Div8,
    Div16,
}

impl LcdPllSaiDiv {
    /// Field encoding of the division factor.
    pub open spec fn spec_bits(self) -> u32 {
        match self {
            LcdPllSaiDiv::Div2 => 0b00,
            LcdPllSaiDiv::Div4 => 0b01,
            LcdPllSaiDiv::Div8 => 0b10,
            LcdPllSaiDiv::Div16 => 0b11,
        }
    }

    /// Field encoding of the division factor.
    pub fn bits(self) -> (b: u32)
        ensures
            b == self.spec_bits(),
    {
        match self {
            LcdPllSaiDiv::Div2 => 0b00,
            LcdPllSaiDiv::Div4 => 0b01,
            LcdPllSaiDiv::Div8 => 0b10,
            LcdPllSaiDiv::Div16 => 0b11,
        }
    }
}

/// Select the division factor of the display pixel clock.
pub fn conf_lcd_pllsai_divr(rcc: &mut RccRegs, d: LcdPllSaiDiv)
    ensures
        *final(rcc) == (RccRegs {
            dckcfgr: reg::with_field(old(rcc).dckcfgr, 16, 2, d.spec_bits()),
            ..*old(rcc)
        }),
{
    reg::modify_field(&mut rcc.dckcfgr, 16, 2, d.bits());
}

/// Program the SAI clock divider fed by the SAI PLL, 1-32, stored minus one;
/// a divider outside that range is rejected before any register is touched.
pub fn conf_sai1_pllsai_divq(rcc: &mut RccRegs, d: u8) -> (r: Result<(), RccError>)
    ensures
        1 <= d <= 32 ==> r == Ok::<(), RccError>(()) && *final(rcc) == (RccRegs {
            dckcfgr: reg::with_field(old(rcc).dckcfgr, 8, 5, (d - 1) as u32),
            ..*old(rcc)
        }),
        !(1 <= d <= 32) ==> r == Err::<(), RccError>(RccError::InvalidParameter) && *final(rcc)
            == *old(rcc),
{
    if d > 32 || d < 1 {
        return Err(RccError::InvalidParameter);
    }
    reg::modify_field(&mut rcc.dckcfgr, 8, 5, (d - 1) as u32);
    Ok(())
}

/// Program the I2S clock divider fed by the SAI PLL, 1-32, stored minus one;
/// a divider outside that range is rejected before any register is touched.
pub fn conf_i2s_pllsai_divq(rcc: &mut RccRegs, d: u8) -> (r: Result<(), RccError>)
    ensures
        1 <= d <= 32 ==> r == Ok::<(), RccError>(()) && *final(rcc) == (RccRegs {
            dckcfgr: reg::with_field(old(rcc).dckcfgr, 0, 5, (d - 1) as u32),
            ..*old(rcc)
        }),
        !(1 <= d <= 32) ==> r == Err::<(), RccError>(RccError::InvalidParameter) && *final(rcc)
            == *old(rcc),
{
    if d > 32 || d < 1 {
        return Err(RccError::InvalidParameter);
    }
    reg::modify_field(&mut rcc.dckcfgr, 0, 5, (d - 1) as u32);
    Ok(())
}

} // verus!
