//! System clock bring-up: a strictly ordered sequence that raises the core
//! to its target frequency.
//!
//! The order is fixed: high-speed external oscillator on and ready, main PLL
//! programmed, power controller clocked and voltage scaling set, bus
//! prescalers programmed, PLL on and ready, overdrive and its switch enabled
//! in turn, flash wait states set, and only then the system clock switched
//! to the PLL and the switch confirmed by read-back.  On hardware every
//! "ready" is an unbounded busy-wait with no timeout; a flag that never
//! rises hangs the system, recoverable only by external reset.  The model's
//! status bits stand for hardware that answers its polls, which is what the
//! `requires` clauses state; each poll loop is then proved to exit.

use vstd::prelude::*;

use crate::rcc;
use crate::rcc::RccRegs;
use crate::reg;

verus! {

/// Register block of the power controller.
#[derive(Clone, Copy, PartialEq, Eq, Structural, Debug)]
pub struct PwrRegs {
    /// Control register: voltage scaling and overdrive switches.
    pub cr: u32,
    /// Status register: overdrive ready flags.
    pub csr: u32,
}

/// Register block of the flash interface.
#[derive(Clone, Copy, PartialEq, Eq, Structural, Debug)]
pub struct FlashRegs {
    /// Access control register: wait states, prefetch and caches.
    pub acr: u32,
}

/// Register block of the system configuration controller.
#[derive(Clone, Copy, PartialEq, Eq, Structural, Debug)]
pub struct SyscfgRegs {
    /// External-interrupt source selection for lines 0-3, 4 bits per line.
    pub exticr1: u32,
}

/// Overdrive-ready flag in the power status register.
pub const PWR_CSR_ODRDY: u32 = 0x0001_0000;

/// Overdrive-switch-ready flag in the power status register.
pub const PWR_CSR_ODSWRDY: u32 = 0x0002_0000;

/// The power control register after the whole bring-up: voltage scaling at
/// its highest range, overdrive and its switch enabled.
pub open spec fn spec_pwr_cr_after(prev: u32) -> u32 {
    reg::with_bit(reg::with_bit(reg::with_field(prev, 14, 2, 0b11), 16, true), 17, true)
}

/// The flash access control register after the bring-up: five wait states,
/// prefetch and instruction cache enabled.
pub open spec fn spec_flash_acr_after(prev: u32) -> u32 {
    reg::with_bit(reg::with_bit(reg::with_field(prev, 0, 4, 5), 8, true), 9, true)
}

/// The clock configuration register after the bring-up: system bus
/// undivided, second peripheral bus halved, first peripheral bus quartered,
/// and the source switch requesting the PLL.
pub open spec fn spec_cfgr_after(prev: u32) -> u32 {
    reg::with_field(
        reg::with_field(
            reg::with_field(reg::with_field(prev, 4, 4, 0b0000), 13, 3, 0b100),
            10,
            3,
            0b101,
        ),
        0,
        2,
        0b10,
    )
}

/// Raise the voltage scaling output to its highest range.
pub fn set_voltage_scale(pwr: &mut PwrRegs)
    ensures
        *final(pwr) == (PwrRegs { cr: reg::with_field(old(pwr).cr, 14, 2, 0b11), ..*old(pwr) }),
{
    reg::modify_field(&mut pwr.cr, 14, 2, 0b11);
}

/// Enable core voltage overdrive; the ready flag is polled afterwards.
pub fn enable_overdrive(pwr: &mut PwrRegs)
    ensures
        *final(pwr) == (PwrRegs { cr: reg::with_bit(old(pwr).cr, 16, true), ..*old(pwr) }),
{
    reg::modify_bit(&mut pwr.cr, 16, true);
}

/// Enable the overdrive switch; its ready flag is polled afterwards.
pub fn enable_overdrive_switch(pwr: &mut PwrRegs)
    ensures
        *final(pwr) == (PwrRegs { cr: reg::with_bit(old(pwr).cr, 17, true), ..*old(pwr) }),
{
    reg::modify_bit(&mut pwr.cr, 17, true);
}

/// Program five flash wait states and enable prefetch and the instruction
/// cache.
pub fn configure_flash(flash: &mut FlashRegs)
    ensures
        *final(flash) == (FlashRegs { acr: spec_flash_acr_after(old(flash).acr) }),
{
    reg::modify_field(&mut flash.acr, 0, 4, 5);
    reg::modify_bit(&mut flash.acr, 8, true);
    reg::modify_bit(&mut flash.acr, 9, true);
}

/// Bring the clock tree up to its target configuration, in the fixed order
/// described at the module head.
///
/// The `requires` clauses state that the hardware behind the model answers
/// every poll of the sequence: the oscillator and PLL ready flags, the two
/// overdrive ready flags, and the read-back source-select status reporting
/// the PLL.  The PLL parameters are constants within their documented
/// ranges, so the sequence never reports an error.
#[verifier::loop_isolation(false)]
pub fn init(rcc: &mut RccRegs, pwr: &mut PwrRegs, flash: &mut FlashRegs) -> (r: Result<
    (),
    rcc::RccError,
>)
    requires
        old(rcc).cr & rcc::CR_HSERDY != 0,
        old(rcc).cr & rcc::CR_PLLRDY != 0,
        old(pwr).csr & PWR_CSR_ODRDY != 0,
        old(pwr).csr & PWR_CSR_ODSWRDY != 0,
        reg::get_field(old(rcc).cfgr, 2, 2) == 0b10,
    ensures
        r == Ok::<(), rcc::RccError>(()),
        *final(rcc) == (RccRegs {
            cr: (old(rcc).cr | rcc::CR_HSEON) | rcc::CR_PLLON,
            pllcfgr: rcc::spec_pllcfgr(old(rcc).pllcfgr, 7, 360, 8, 15),
            cfgr: spec_cfgr_after(old(rcc).cfgr),
            apb1enr: old(rcc).apb1enr | rcc::APB1_PWR,
            ..*old(rcc)
        }),
        *final(pwr) == (PwrRegs { cr: spec_pwr_cr_after(old(pwr).cr), ..*old(pwr) }),
        *final(flash) == (FlashRegs { acr: spec_flash_acr_after(old(flash).acr) }),
{
    // Step 1: high-speed external oscillator on, then poll its ready flag.
    rcc::clock_ctrl(rcc, rcc::CR_HSEON, true);
    proof {
        reg::lemma_or_keeps_mask(old(rcc).cr, rcc::CR_HSEON, rcc::CR_HSERDY);
        reg::lemma_or_keeps_mask(old(rcc).cr, rcc::CR_HSEON, rcc::CR_PLLRDY);
    }
    while !rcc::check_flag(rcc, rcc::CR_HSERDY)
        decreases 0int,
    {
    }
    // Step 2: program the main PLL; the constant parameters lie inside every
    // documented range, so this cannot fail.
    let pll = rcc::configure_pll(rcc, 7, 360, 8, 15);
    match pll {
        Ok(()) => (),
        Err(e) => {
            return Err(e);
        },
    }
    // Step 3: clock the power controller and raise the voltage scaling range.
    rcc::set_apb1_periph_clk(rcc, rcc::APB1_PWR, true);
    set_voltage_scale(pwr);
    // Step 4: bus prescalers.
    rcc::set_ahb_pre(rcc, rcc::AhbPre::Div1);
    rcc::set_apb2_pre(rcc, rcc::ApbPre::Div2);
    rcc::set_apb1_pre(rcc, rcc::ApbPre::Div4);
    // Step 5: main PLL on, then poll its ready flag.
    rcc::clock_ctrl(rcc, rcc::CR_PLLON, true);
    proof {
        reg::lemma_or_keeps_mask((old(rcc).cr | rcc::CR_HSEON) as u32, rcc::CR_PLLON,
            rcc::CR_PLLRDY);
    }
    while !rcc::check_flag(rcc, rcc::CR_PLLRDY)
        decreases 0int,
    {
    }
    // Step 6: overdrive, then the overdrive switch, each polled ready.
    enable_overdrive(pwr);
    while (pwr.csr & PWR_CSR_ODRDY) == 0
        decreases 0int,
    {
    }
    enable_overdrive_switch(pwr);
    while (pwr.csr & PWR_CSR_ODSWRDY) == 0
        decreases 0int,
    {
    }
    // Step 7: flash wait states, prefetch and instruction cache.
    configure_flash(flash);
    // Step 8: switch the system clock to the PLL and confirm by read-back.
    rcc::set_sysclk_src(rcc, rcc::SysClkSrc::Pll);
    proof {
        let c0 = old(rcc).cfgr;
        reg::lemma_field_disjoint(c0, 4, 4, 0b0000, 2, 2);
        reg::lemma_field_disjoint(reg::with_field(c0, 4, 4, 0b0000), 13, 3, 0b100, 2, 2);
        reg::lemma_field_disjoint(
            reg::with_field(reg::with_field(c0, 4, 4, 0b0000), 13, 3, 0b100),
            10,
            3,
            0b101,
            2,
            2,
        );
        reg::lemma_field_disjoint(
            reg::with_field(
                reg::with_field(reg::with_field(c0, 4, 4, 0b0000), 13, 3, 0b100),
                10,
                3,
                0b101,
            ),
            0,
            2,
            0b10,
            2,
            2,
        );
    }
    loop
        decreases 0int,
    {
        let src = rcc::get_sysclk_src(rcc);
        if src == rcc::SysClkSrc::Pll {
            break ;
        }
    }
    Ok(())
}

} // verus!
