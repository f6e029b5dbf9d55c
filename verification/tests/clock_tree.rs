//! Clock tree: PLL parameter validation, prescalers, the full bring-up.

use f429_bsp::clocks::{self, FlashRegs, PwrRegs, PWR_CSR_ODRDY, PWR_CSR_ODSWRDY};
use f429_bsp::rcc::{self, ApbPre, RccError, RccRegs, SysClkSrc};

#[test]
fn pll_boundaries_succeed() {
    // Each documented boundary value is accepted: input divider 2 and 63,
    // multiplier 50 and 432, output divider exactly 2, 4, 6 and 8.
    for (q, n, p, m) in [
        (2u8, 50u16, 2u8, 2u8),
        (15, 432, 8, 63),
        (7, 50, 4, 2),
        (7, 432, 6, 63),
    ] {
        let mut r = RccRegs::new();
        assert_eq!(rcc::configure_pll(&mut r, q, n, p, m), Ok(()));
    }
}

#[test]
fn pll_one_past_each_boundary_fails() {
    let base = (7u8, 360u16, 8u8, 15u8);
    let bad = [
        (1u8, base.1, base.2, base.3),
        (16, base.1, base.2, base.3),
        (base.0, 49, base.2, base.3),
        (base.0, 433, base.2, base.3),
        (base.0, base.1, 1, base.3),
        (base.0, base.1, 3, base.3),
        (base.0, base.1, 5, base.3),
        (base.0, base.1, 7, base.3),
        (base.0, base.1, 9, base.3),
        (base.0, base.1, base.2, 1),
        (base.0, base.1, base.2, 64),
    ];
    for (q, n, p, m) in bad {
        let mut r = RccRegs::new();
        r.pllcfgr = 0x1234_5678;
        assert_eq!(
            rcc::configure_pll(&mut r, q, n, p, m),
            Err(RccError::InvalidParameter)
        );
        // No partial state change on a rejected parameter.
        assert_eq!(r.pllcfgr, 0x1234_5678);
    }
}

#[test]
fn pll_register_encoding() {
    let mut r = RccRegs::new();
    assert_eq!(rcc::configure_pll(&mut r, 7, 360, 8, 15), Ok(()));
    // q in bits 24-27, p stored as p/2-1 in bits 16-17, n in bits 6-14,
    // m in bits 0-5.
    assert_eq!(r.pllcfgr, (7 << 24) | (3 << 16) | (360 << 6) | 15);
}

#[test]
fn clock_ctrl_sets_and_clears_masks() {
    let mut r = RccRegs::new();
    rcc::clock_ctrl(&mut r, rcc::CR_HSEON | rcc::CR_PLLON, true);
    assert_eq!(r.cr, rcc::CR_HSEON | rcc::CR_PLLON);
    assert!(!rcc::check_flag(&r, rcc::CR_HSERDY));
    r.cr |= rcc::CR_HSERDY;
    assert!(rcc::check_flag(&r, rcc::CR_HSERDY));
    rcc::clock_ctrl(&mut r, rcc::CR_HSEON, false);
    assert_eq!(r.cr, rcc::CR_PLLON | rcc::CR_HSERDY);
}

#[test]
fn prescaler_fields() {
    let mut r = RccRegs::new();
    rcc::set_apb2_pre(&mut r, ApbPre::Div2);
    assert_eq!(r.cfgr, 0b100 << 13);
    rcc::set_apb1_pre(&mut r, ApbPre::Div4);
    assert_eq!(r.cfgr, (0b100 << 13) | (0b101 << 10));
    rcc::set_ahb_pre(&mut r, rcc::AhbPre::Div512);
    assert_eq!(r.cfgr, (0b100 << 13) | (0b101 << 10) | (0b1111 << 4));
}

#[test]
fn sysclk_source_roundtrip() {
    assert_eq!(SysClkSrc::from_bits(0), SysClkSrc::Hsi);
    assert_eq!(SysClkSrc::from_bits(1), SysClkSrc::Hse);
    assert_eq!(SysClkSrc::from_bits(2), SysClkSrc::Pll);
    assert_eq!(SysClkSrc::from_bits(3), SysClkSrc::Hsi);
    let mut r = RccRegs::new();
    rcc::set_sysclk_src(&mut r, SysClkSrc::Pll);
    assert_eq!(r.cfgr, 0b10);
    // The read-back status field lives two bits above the request field.
    r.cfgr |= 0b10 << 2;
    assert_eq!(rcc::get_sysclk_src(&r), SysClkSrc::Pll);
}

#[test]
fn rtc_divider_range() {
    let mut r = RccRegs::new();
    assert_eq!(rcc::set_rtc_div(&mut r, 31), Ok(()));
    assert_eq!(r.cfgr, 31 << 16);
    assert_eq!(rcc::set_rtc_div(&mut r, 32), Err(RccError::InvalidParameter));
    assert_eq!(r.cfgr, 31 << 16);
}

#[test]
fn spread_spectrum_ranges() {
    let mut r = RccRegs::new();
    assert_eq!(rcc::set_sscg_inc_step(&mut r, 32767), Ok(()));
    assert_eq!(r.sscgr, 32767 << 13);
    assert_eq!(
        rcc::set_sscg_inc_step(&mut r, 32768),
        Err(RccError::InvalidParameter)
    );
    assert_eq!(rcc::set_sscg_mod_period(&mut r, 4095), Ok(()));
    assert_eq!(r.sscgr, (32767 << 13) | 4095);
    assert_eq!(
        rcc::set_sscg_mod_period(&mut r, 4096),
        Err(RccError::InvalidParameter)
    );
}

#[test]
fn audio_pll_ranges_and_encoding() {
    let mut r = RccRegs::new();
    assert_eq!(rcc::conf_i2s_pll(&mut r, 2, 2, 50), Ok(()));
    assert_eq!(r.plli2scfgr, (2 << 28) | (2 << 24) | (50 << 6));
    assert_eq!(
        rcc::conf_i2s_pll(&mut r, 1, 2, 50),
        Err(RccError::InvalidParameter)
    );
    assert_eq!(
        rcc::conf_i2s_pll(&mut r, 8, 2, 50),
        Err(RccError::InvalidParameter)
    );
    assert_eq!(
        rcc::conf_i2s_pll(&mut r, 2, 16, 50),
        Err(RccError::InvalidParameter)
    );
    assert_eq!(
        rcc::conf_i2s_pll(&mut r, 2, 2, 449),
        Err(RccError::InvalidParameter)
    );
    assert_eq!(rcc::conf_sai_pll(&mut r, 7, 2, 432), Ok(()));
    assert_eq!(r.pllsaicfgr, (7 << 28) | (2 << 24) | (432 << 6));
    assert_eq!(
        rcc::conf_sai_pll(&mut r, 7, 1, 432),
        Err(RccError::InvalidParameter)
    );
    assert_eq!(
        rcc::conf_sai_pll(&mut r, 7, 16, 432),
        Err(RccError::InvalidParameter)
    );
    assert_eq!(r.pllsaicfgr, (7 << 28) | (2 << 24) | (432 << 6));
    assert_eq!(rcc::conf_sai_pll(&mut r, 7, 15, 432), Ok(()));
    assert_eq!(r.pllsaicfgr, (7 << 28) | (15 << 24) | (432 << 6));
}

#[test]
fn pixel_clock_dividers() {
    let mut r = RccRegs::new();
    rcc::conf_lcd_pllsai_divr(&mut r, rcc::LcdPllSaiDiv::Div8);
    assert_eq!(r.dckcfgr, 0b10 << 16);
    assert_eq!(rcc::conf_sai1_pllsai_divq(&mut r, 32), Ok(()));
    assert_eq!(r.dckcfgr, (0b10 << 16) | (31 << 8));
    assert_eq!(
        rcc::conf_sai1_pllsai_divq(&mut r, 0),
        Err(RccError::InvalidParameter)
    );
    assert_eq!(
        rcc::conf_i2s_pllsai_divq(&mut r, 33),
        Err(RccError::InvalidParameter)
    );
    assert_eq!(rcc::conf_i2s_pllsai_divq(&mut r, 1), Ok(()));
    assert_eq!(r.dckcfgr, (0b10 << 16) | (31 << 8));
}

#[test]
fn peripheral_clock_masks() {
    let mut r = RccRegs::new();
    rcc::set_ahb1_periph_clk(&mut r, rcc::AHB1_GPIOA | rcc::AHB1_GPIOG, true);
    assert_eq!(r.ahb1enr, rcc::AHB1_GPIOA | rcc::AHB1_GPIOG);
    rcc::set_ahb1_periph_clk(&mut r, rcc::AHB1_GPIOA, false);
    assert_eq!(r.ahb1enr, rcc::AHB1_GPIOG);
    rcc::set_apb2_periph_clk(&mut r, rcc::APB2_SPI5, true);
    assert_eq!(r.apb2enr, rcc::APB2_SPI5);
    rcc::reset_apb1_periph(&mut r, 0xF0, true);
    assert_eq!(r.apb1rstr, 0xF0);
    rcc::reset_apb1_periph(&mut r, 0x30, false);
    assert_eq!(r.apb1rstr, 0xC0);
    rcc::set_lp_ahb2_periph_clk(&mut r, 0x11, true);
    assert_eq!(r.ahb2lpenr, 0x11);
}

#[test]
fn interrupt_flag_operations() {
    let mut r = RccRegs::new();
    rcc::set_interrupt(&mut r, 0x1F00, true);
    assert_eq!(r.cir, 0x1F00);
    assert!(rcc::check_interrupt_flag(&r, 0x0100));
    assert!(!rcc::check_interrupt_flag(&r, 0x0001));
    rcc::clear_interrupt_flag(&mut r, 0x0F_0000);
    assert_eq!(r.cir, 0x1F00 | 0x0F_0000);
    rcc::set_interrupt(&mut r, 0x0100, false);
    assert_eq!(r.cir, 0x1E00 | 0x0F_0000);
}

#[test]
fn backup_domain_and_status() {
    let mut r = RccRegs::new();
    rcc::set_lse(&mut r, true);
    rcc::enable_lse_bypass(&mut r, true);
    rcc::set_rtc(&mut r, true);
    rcc::set_rtc_clk_src(&mut r, rcc::RtcClkSrc::Lsi);
    rcc::reset_backup_domain(&mut r, true);
    assert_eq!(r.bdcr, 1 | (1 << 2) | (1 << 15) | (0b10 << 8) | (1 << 16));
    assert!(!rcc::get_lse_status(&r));
    r.bdcr |= 1 << 1;
    assert!(rcc::get_lse_status(&r));
    r.csr = 0xFE00_0003;
    assert_eq!(rcc::get_reset_flag(&r), 0xFE00_0000);
    assert!(rcc::check_lsi_flag(&r));
    rcc::clear_reset_flag(&mut r);
    assert_eq!(r.csr, 0xFF00_0003);
}

#[test]
fn full_bring_up_sequence() {
    // The model's ready flags answer every poll of the sequence; the final
    // register state carries the whole configuration.
    let mut r = RccRegs::new();
    r.cr = rcc::CR_HSERDY | rcc::CR_PLLRDY;
    r.cfgr = 0b10 << 2;
    let mut pwr = PwrRegs {
        cr: 0,
        csr: PWR_CSR_ODRDY | PWR_CSR_ODSWRDY,
    };
    let mut flash = FlashRegs { acr: 0 };
    assert_eq!(clocks::init(&mut r, &mut pwr, &mut flash), Ok(()));
    assert_eq!(
        r.cr,
        rcc::CR_HSERDY | rcc::CR_PLLRDY | rcc::CR_HSEON | rcc::CR_PLLON
    );
    assert_eq!(r.pllcfgr, (7 << 24) | (3 << 16) | (360 << 6) | 15);
    assert_eq!(r.cfgr, (0b10 << 2) | (0b100 << 13) | (0b101 << 10) | 0b10);
    assert_eq!(r.apb1enr, rcc::APB1_PWR);
    assert_eq!(pwr.cr, (0b11 << 14) | (1 << 16) | (1 << 17));
    assert_eq!(flash.acr, 5 | (1 << 8) | (1 << 9));
}
