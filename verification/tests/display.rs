//! Display driver: colors, layers, timing bring-up, window positioning, the
//! framebuffer fill, and the LEDs.

use f429_bsp::gpio::GpioPort;
use f429_bsp::lcd::{
    self, Color, Direction, Font, Layer, Lcd, LcdError, Point, LCD_BUFFER_OFFSET,
    LCD_FRAME_BUFFER_START,
};
use f429_bsp::led::{Led, LedName};
use f429_bsp::ltdc::{self, LtdcRegs};
use f429_bsp::rcc::{self, RccRegs};
use f429_bsp::sdram::{FmcRegs, SdRamBank};
use f429_bsp::spi::SpiRegs;

#[test]
fn rgb_assembly() {
    assert_eq!(lcd::assemble_rgb(0xFF, 0xFF, 0xFF), 0xFFFF);
    assert_eq!(lcd::assemble_rgb(0, 0, 0), 0);
    assert_eq!(lcd::assemble_rgb(0xFF, 0, 0), 0xF800);
    assert_eq!(lcd::assemble_rgb(0, 0xFF, 0), 0x07E0);
    assert_eq!(lcd::assemble_rgb(0, 0, 0xFF), 0x001F);
}

#[test]
fn color_values() {
    assert_eq!(Color::White.val(), 0xFFFF);
    assert_eq!(Color::Grey.val(), 0xF7DE);
    assert_eq!(Color::Magenta.val(), 0xF81F);
}

#[test]
fn command_bytes() {
    assert_eq!(lcd::Register::LcdSleepOut.addr(), 0x11);
    assert_eq!(lcd::Register::LcdGRam.addr(), 0x2C);
    assert_eq!(lcd::Register::LcdPixelFormat.addr(), 0x3A);
    assert_eq!(lcd::Register::LcdPRC.addr(), 0xF7);
}

#[test]
fn driver_state_accessors() {
    let mut d = Lcd::new();
    assert_eq!(d.current_frame_buffer, LCD_FRAME_BUFFER_START);
    assert_eq!(d.get_font(), Font { width: 8, height: 12 });
    d.set_colors(Color::Red, Color::Blue);
    assert_eq!(d.get_colors(), (Color::Red, Color::Blue));
    d.set_text_color(Color::Green);
    d.set_back_color(Color::Black);
    assert_eq!(d.get_colors(), (Color::Green, Color::Black));
    d.set_layer(Layer::Foreground);
    assert_eq!(
        d.current_frame_buffer,
        LCD_FRAME_BUFFER_START + LCD_BUFFER_OFFSET
    );
    d.set_layer(Layer::Background);
    assert_eq!(d.current_frame_buffer, LCD_FRAME_BUFFER_START);
}

#[test]
fn cursor_address() {
    let mut d = Lcd::new();
    assert_eq!(d.set_cursor(0, 0), LCD_FRAME_BUFFER_START);
    assert_eq!(d.set_cursor(10, 2), LCD_FRAME_BUFFER_START + 2 * (10 + 240 * 2));
    d.set_layer(Layer::Foreground);
    assert_eq!(
        d.set_cursor(239, 319),
        LCD_FRAME_BUFFER_START + LCD_BUFFER_OFFSET + 2 * (239 + 240 * 319)
    );
}

#[test]
fn put_pixel_bounds() {
    let d = Lcd::new();
    assert_eq!(d.put_pixel(239, 319), Ok(()));
    assert_eq!(d.put_pixel(240, 0), Err(LcdError::OutOfScreen));
    assert_eq!(d.put_pixel(0, 320), Err(LcdError::OutOfScreen));
}

#[test]
fn reserved_drawing_surface_answers() {
    let d = Lcd::new();
    let p = Point { x: 1, y: 2 };
    assert_eq!(d.draw_line(0, 0, 10, Direction::Horizontal), Ok(()));
    assert_eq!(d.draw_rect(0, 0, 10, 10), Ok(()));
    assert_eq!(d.draw_circle(5, 5, 2), Ok(()));
    assert_eq!(d.draw_full_ellipse(5, 5, 2, 3), Ok(()));
    assert_eq!(d.draw_ellipse(5, 5, 2, 3), Ok(()));
    assert_eq!(d.draw_mono_picture(&0), Ok(()));
    assert_eq!(d.draw_bmp(&0), Ok(()));
    assert_eq!(d.draw_full_rect(0, 0, 4, 4), Ok(()));
    assert_eq!(d.draw_full_circle(5, 5, 2), Ok(()));
    assert_eq!(d.draw_uniline(p, p), Ok(()));
    assert_eq!(d.draw_triangle(p, p, p), Ok(()));
    assert_eq!(d.draw_full_triangle(p, p, p), Ok(()));
    assert_eq!(d.draw_polyline_closed(&[p], true), Ok(()));
    assert_eq!(d.draw_polyline_relative_closed(&[p], false), Ok(()));
    assert_eq!(d.draw_full_polyline(&[p]), Ok(()));
    assert_eq!(d.set_display_window(0, 0, 10, 10), Ok(()));
    d.disable_window_mode();
    d.display_string_line(0, "ab");
    d.display_char(0, 0, 'a');
    d.send_command(lcd::Register::LcdDisplayOn);
    d.send_data(7);
    d.power_on();
    d.display_on();
    d.display_off();
    d.clear_line(3);
}

#[test]
fn layer_bring_up_registers() {
    let mut d = Lcd::new();
    let mut regs = LtdcRegs::new();
    d.init_layers(&mut regs);
    assert_eq!(d.get_font(), Font { width: 16, height: 24 });
    for (lr, bf, base) in [
        (&regs.layer1, 0b100u32, LCD_FRAME_BUFFER_START),
        (
            &regs.layer2,
            0b110,
            LCD_FRAME_BUFFER_START + LCD_BUFFER_OFFSET,
        ),
    ] {
        assert_eq!(lr.whpcr, (269 << 16) | 30);
        assert_eq!(lr.wvpcr, (323 << 16) | 4);
        assert_eq!(lr.pfcr, 0b010);
        assert_eq!(lr.cacr, 255);
        assert_eq!(lr.dccr, 0);
        assert_eq!(lr.bfcr, (bf << 8) | bf);
        assert_eq!(lr.cfbar, base);
        assert_eq!(lr.cfblr, (480 << 16) | 483);
        assert_eq!(lr.cfblnr, 320);
        assert_eq!(lr.cr, 1);
    }
    assert_eq!(regs.srcr, 1);
    assert_eq!(regs.gcr, 1 << 16);
}

#[test]
fn layers_never_overlap() {
    // The configured window spans at most the fixed offset separating the
    // two framebuffer bases, for the full panel resolution.
    let stride: u32 = 2 * 240;
    let lines: u32 = 320;
    let span = stride * lines;
    assert!(span <= LCD_BUFFER_OFFSET);
    let base1 = LCD_FRAME_BUFFER_START;
    let base2 = LCD_FRAME_BUFFER_START + LCD_BUFFER_OFFSET;
    assert!(base1 + span <= base2);
    // And for every smaller window too.
    for w in [1u32, 100, 240] {
        for h in [1u32, 200, 320] {
            assert!(2 * w * h <= LCD_BUFFER_OFFSET);
        }
    }
}

#[test]
fn window_positioning_reads_back_programmed_registers() {
    let mut d = Lcd::new();
    let mut regs = LtdcRegs::new();
    d.init_layers(&mut regs);
    regs.bpcr = (29 << 16) | 3;
    ltdc::set_layer_position(&mut regs, ltdc::Layer::First, 0, 0);
    // The derived window equals the one the bring-up programs.
    assert_eq!(regs.layer1.whpcr, (269 << 16) | 30);
    assert_eq!(regs.layer1.wvpcr, (323 << 16) | 4);
    ltdc::set_layer_position(&mut regs, ltdc::Layer::Second, 10, 20);
    assert_eq!(regs.layer2.whpcr, ((269 + 10) << 16) | (30 + 10));
    assert_eq!(regs.layer2.wvpcr, ((323 + 20) << 16) | (4 + 20));
    ltdc::set_layer_size(1, 10, 10);
}

#[test]
fn reload_commit_bits() {
    let mut regs = LtdcRegs::new();
    ltdc::reload_configuration(&mut regs, ltdc::LayerReloadMethod::ImReload);
    assert_eq!(regs.srcr, 0b01);
    ltdc::reload_configuration(&mut regs, ltdc::LayerReloadMethod::VbReload);
    assert_eq!(regs.srcr, 0b11);
}

#[test]
fn transparency_and_color_keying() {
    let d = Lcd::new();
    let mut regs = LtdcRegs::new();
    d.set_transparency(&mut regs, 0x80);
    assert_eq!(regs.layer1.cacr, 0x80);
    assert_eq!(regs.layer2.cacr, 0);
    assert_eq!(regs.srcr, 1);
    d.set_color_keying(&mut regs, 0x00AABBCC);
    assert_eq!(regs.layer1.ckcr, 0x00AABBCC);
    assert_eq!(regs.layer1.cr, 1 << 1);
    d.reset_color_keying(&mut regs);
    assert_eq!(regs.layer1.ckcr, 0);
    assert_eq!(regs.layer1.cr, 1 << 1);
}

#[test]
fn clear_fills_the_active_region_only() {
    // Each layer's fill covers exactly its own region of the fixed layer
    // offset; the other layer's region is never touched.
    let mut d = Lcd::new();
    let mut bank = SdRamBank::new();
    d.clear(&mut bank, Color::White);
    let span = (LCD_BUFFER_OFFSET as usize) / 4;
    assert_eq!(bank.words[0], 0xFFFF_FFFF);
    assert_eq!(bank.words[span - 1], 0xFFFF_FFFF);
    // The first word of the foreground region is untouched.
    assert_eq!(bank.words[span], 0);
    d.set_layer(Layer::Foreground);
    d.clear(&mut bank, Color::Blue);
    assert_eq!(bank.words[span], 0x001F_001F);
    assert_eq!(bank.words[2 * span - 1], 0x001F_001F);
    assert_eq!(bank.words[2 * span], 0);
    // The background region kept its own fill.
    assert_eq!(bank.words[span - 1], 0xFFFF_FFFF);
}

#[test]
fn display_bring_up_sequence() {
    let mut d = Lcd::new();
    let mut r = RccRegs::new();
    r.cr = rcc::CR_PLLSAIRDY;
    let mut pa = GpioPort::new();
    let mut pb = GpioPort::new();
    let mut pc = GpioPort::new();
    let mut pd = GpioPort::new();
    let mut pe = GpioPort::new();
    let mut pf = GpioPort::new();
    let mut pg = GpioPort::new();
    let mut spi = SpiRegs::new();
    let mut fmc = FmcRegs::new();
    let mut regs = LtdcRegs::new();
    d.init(
        &mut r, &mut pa, &mut pb, &mut pc, &mut pd, &mut pe, &mut pf, &mut pg, &mut spi, &mut fmc,
        &mut regs,
    );
    // Clock domains: command SPI, display controller, accelerator, ports,
    // external memory, pixel clock branch.
    assert_eq!(r.apb2enr, rcc::APB2_SPI5 | rcc::APB2_LTDC);
    assert_eq!(r.ahb3enr, rcc::AHB3_FMC);
    assert!(r.ahb1enr & rcc::AHB1_DMA2D != 0);
    assert_eq!(r.cr, rcc::CR_PLLSAIRDY | rcc::CR_PLLSAION);
    assert_eq!(r.pllsaicfgr, (4 << 28) | (7 << 24) | (192 << 6));
    assert_eq!(r.dckcfgr, 0b10 << 16);
    // The command SPI control word: clock divided by sixteen, master,
    // peripheral enabled.
    assert_eq!(spi.cr1, (0b011 << 3) | (1 << 2) | (1 << 6));
    // Panel timing in minus-one encodings.
    assert_eq!(regs.twcr, (279 << 16) | 327);
    assert_eq!(regs.awcr, (323 << 16) | 269);
    assert_eq!(regs.bpcr, (29 << 16) | 3);
    assert_eq!(regs.sscr, (9 << 16) | 1);
    assert_eq!(regs.gcr, 0);
    assert_eq!(regs.bccr, 0);
    // The external memory ran its command sequence.
    assert_eq!(fmc.cmds.len(), 5);
    // Chip-select pin: output mode, pulsed and released low.
    assert_eq!(pc.moder & 0b11 << 4, 0b01 << 4);
    assert_eq!(pc.odr, 0);
}

#[test]
fn display_release_clears_claimed_pins() {
    let mut d = Lcd::new();
    let mut r = RccRegs::new();
    r.apb2enr = rcc::APB2_SPI5 | rcc::APB2_LTDC;
    let mut spi = SpiRegs::new();
    spi.cr1 = 0xFFFF;
    spi.cr2 = 0xFF;
    let mut pa = GpioPort {
        moder: 0xFFFF_FFFF,
        otyper: 0,
        ospeedr: 0,
        pupdr: 0xFFFF_FFFF,
        idr: 0,
        odr: 0,
        afrl: 0xFFFF_FFFF,
        afrh: 0xFFFF_FFFF,
    };
    let mut pb = GpioPort::new();
    let mut pc = GpioPort::new();
    let mut pd = GpioPort::new();
    let mut pf = GpioPort::new();
    let mut pg = GpioPort::new();
    d.deinit(
        &mut r, &mut spi, &mut pa, &mut pb, &mut pc, &mut pd, &mut pf, &mut pg,
    );
    assert_eq!(spi.cr1, 0);
    assert_eq!(spi.cr2, 0);
    assert_eq!(r.apb2enr, rcc::APB2_LTDC);
    // Pin 3 of port A: mode, pull and alternate function cleared; pin 5
    // (not claimed by the display) untouched.
    assert_eq!(pa.moder & (0b11 << 6), 0);
    assert_eq!(pa.pupdr & (0b11 << 6), 0);
    assert_eq!(pa.afrl & (0xF << 12), 0);
    assert_eq!(pa.moder & (0b11 << 10), 0b11 << 10);
}

#[test]
fn led_drive() {
    let led3 = Led::new(LedName::Led3);
    let led4 = Led::new(LedName::Led4);
    let mut r = RccRegs::new();
    let mut pg = GpioPort::new();
    led3.init(&mut r, &mut pg);
    led4.init(&mut r, &mut pg);
    assert_eq!(r.ahb1enr, rcc::AHB1_GPIOG);
    assert_eq!(pg.moder, (0b01 << 26) | (0b01 << 28));
    led3.on(&mut pg);
    assert_eq!(pg.odr, 1 << 13);
    led4.on(&mut pg);
    assert_eq!(pg.odr, (1 << 13) | (1 << 14));
    led3.off(&mut pg);
    assert_eq!(pg.odr, 1 << 14);
    // Toggling reads the input register back.
    pg.idr = 0;
    led3.toggle(&mut pg);
    assert_eq!(pg.odr, (1 << 13) | (1 << 14));
    pg.idr = 1 << 13;
    led3.toggle(&mut pg);
    assert_eq!(pg.odr, 1 << 14);
}
