//! Panel driver: command interface bring-up, display timing, and the two
//! blended framebuffer layers.
//!
//! The panel is 240 by 320 pixels in a fixed 16-bit pixel format.  The two
//! layers' framebuffers live in the external memory bank, separated by a
//! fixed byte offset so their windows never alias; the background layer
//! blends by constant alpha alone, the foreground by pixel alpha times
//! constant alpha, so it composites over the background.  The glyph and
//! shape drawing surface is named but intentionally unimplemented.

use vstd::prelude::*;

use crate::gpio;
use crate::gpio::GpioPort;
use crate::ltdc::LtdcLayerRegs;
use crate::ltdc::LtdcRegs;
use crate::rcc;
use crate::rcc::RccRegs;
use crate::reg;
use crate::sdram;
use crate::sdram::FmcRegs;
use crate::sdram::SdRamBank;
use crate::sdram::SDRAM_WORDS;
use crate::spi::SpiRegs;

verus! {

/// Horizontal resolution of the panel in pixels.
pub const LCD_WIDTH: u16 = 240;

/// Vertical resolution of the panel in lines.
pub const LCD_HEIGHT: u16 = 320;

/// Physical address of the background layer's framebuffer.
pub const LCD_FRAME_BUFFER_START: u32 = 0xD0000000;

/// Fixed byte span separating the two layers' framebuffers.
pub const LCD_BUFFER_OFFSET: u32 = 0x50000;

/// Errors of the drawing surface.
#[derive(Clone, Copy, PartialEq, Eq, Structural, Debug)]
pub enum LcdError {
    OutOfFrame,
    OutOfScreen,
}

/// A point on the panel.
#[derive(Clone, Copy, PartialEq, Eq, Structural, Debug)]
pub struct Point {
    /// Horizontal coordinate.
    pub x: i16,
    /// Vertical coordinate.
    pub y: i16,
}

/// The panel's command register map.
#[derive(Clone, Copy, PartialEq, Eq, Structural, Debug)]
pub enum Register {
    /// Sleep out register.
    LcdSleepOut,
    /// Gamma register.
    LcdGamma,
    /// Display off register.
    LcdDisplayOff,
    /// Display on register.
    LcdDisplayOn,
    /// Column address register.
    LcdColumnAddr,
    /// Page address register.
    LcdPageAddr,
    /// Graphics memory write register.
    LcdGRam,
    /// Memory access control register.
    LcdMac,
    /// Pixel format register.
    LcdPixelFormat,
    /// Write display brightness register.
    LcdWDB,
    /// Write control display register.
    LcdWCD,
    /// Parallel interface signal control register.
    LcdRGBInterface,
    /// Frame rate control register.
    LcdFRC,
    /// Blanking porch control register.
    LcdBPC,
    /// Display function control register.
    LcdDFC,
    /// First power control register.
    LcdPower1,
    /// Second power control register.
    LcdPower2,
    /// First common-voltage control register.
    LcdVCOM1,
    /// Second common-voltage control register.
    LcdVCOM2,
    /// Power control register A.
    LcdPowerA,
    /// Power control register B.
    LcdPowerB,
    /// Positive gamma correction register.
    LcdPGamma,
    /// Negative gamma correction register.
    LcdNGamma,
    /// Driver timing control register A.
    LcdDTCA,
    /// Driver timing control register B.
    LcdDTCB,
    /// Power-on sequence register.
    LcdPowerSeq,
    /// Gamma-curve enable register.
    Lcd3GammaEn,
    /// Interface control register.
    LcdInterface,
    /// Pump ratio control register.
    LcdPRC,
}

impl Register {
    /// The command byte the panel documents for the register.
    pub open spec fn spec_addr(self) -> u8 {
        match self {
            Register::LcdSleepOut => 0x11,
            Register::LcdGamma => 0x26,
            Register::LcdDisplayOff => 0x28,
            Register::LcdDisplayOn => 0x29,
            Register::LcdColumnAddr => 0x2A,
            Register::LcdPageAddr => 0x2B,
            Register::LcdGRam => 0x2C,
            Register::LcdMac => 0x36,
            Register::LcdPixelFormat => 0x3A,
            Register::LcdWDB => 0x51,
            Register::LcdWCD => 0x53,
            Register::LcdRGBInterface => 0xB0,
            Register::LcdFRC => 0xB1,
            Register::LcdBPC => 0xB5,
            Register::LcdDFC => 0xB6,
            Register::LcdPower1 => 0xC0,
            Register::LcdPower2 => 0xC1,
            Register::LcdVCOM1 => 0xC5,
            Register::LcdVCOM2 => 0xC7,
            Register::LcdPowerA => 0xCB,
            Register::LcdPowerB => 0xCF,
            Register::LcdPGamma => 0xE0,
            Register::LcdNGamma => 0xE1,
            Register::LcdDTCA => 0xE8,
            Register::LcdDTCB => 0xEA,
            Register::LcdPowerSeq => 0xED,
            Register::Lcd3GammaEn => 0xF2,
            Register::LcdInterface => 0xF6,
            Register::LcdPRC => 0xF7,
        }
    }

    /// The command byte the panel documents for the register.
    pub fn addr(self) -> (a: u8)
        ensures
            a == self.spec_addr(),
    {
        match self {
            Register::LcdSleepOut => 0x11,
            Register::LcdGamma => 0x26,
            Register::LcdDisplayOff => 0x28,
            Register::LcdDisplayOn => 0x29,
            Register::LcdColumnAddr => 0x2A,
            Register::LcdPageAddr => 0x2B,
            Register::LcdGRam => 0x2C,
            Register::LcdMac => 0x36,
            Register::LcdPixelFormat => 0x3A,
            Register::LcdWDB => 0x51,
            Register::LcdWCD => 0x53,
            Register::LcdRGBInterface => 0xB0,
            Register::LcdFRC => 0xB1,
            Register::LcdBPC => 0xB5,
            Register::LcdDFC => 0xB6,
            Register::LcdPower1 => 0xC0,
            Register::LcdPower2 => 0xC1,
            Register::LcdVCOM1 => 0xC5,
            Register::LcdVCOM2 => 0xC7,
            Register::LcdPowerA => 0xCB,
            Register::LcdPowerB => 0xCF,
            Register::LcdPGamma => 0xE0,
            Register::LcdNGamma => 0xE1,
            Register::LcdDTCA => 0xE8,
            Register::LcdDTCB => 0xEA,
            Register::LcdPowerSeq => 0xED,
            Register::Lcd3GammaEn => 0xF2,
            Register::LcdInterface => 0xF6,
            Register::LcdPRC => 0xF7,
        }
    }
}

/// Panel colors in the fixed 16-bit pixel format.
#[derive(Clone, Copy, PartialEq, Eq, Structural, Debug)]
pub enum Color {
    White,
    Black,
    Grey,
    Blue,
    Blue2,
    Red,
    Magenta,
    Green,
    Cyan,
    Yellow,
}

impl Color {
    /// The color's pixel value.
    pub open spec fn spec_val(self) -> u16 {
        match self {
            Color::White => 0xFFFF,
            Color::Black => 0x0000,
            Color::Grey => 0xF7DE,
            Color::Blue => 0x001F,
            Color::Blue2 => 0x051F,
            Color::Red => 0xF800,
            Color::Magenta => 0xF81F,
            Color::Green => 0x07E0,
            Color::Cyan => 0x7FFF,
            Color::Yellow => 0xFFE0,
        }
    }

    /// The color's pixel value.
    pub fn val(self) -> (v: u16)
        ensures
            v == self.spec_val(),
    {
        match self {
            Color::White => 0xFFFF,
            Color::Black => 0x0000,
            Color::Grey => 0xF7DE,
            Color::Blue => 0x001F,
            Color::Blue2 => 0x051F,
            Color::Red => 0xF800,
            Color::Magenta => 0xF81F,
            Color::Green => 0x07E0,
            Color::Cyan => 0x7FFF,
            Color::Yellow => 0xFFE0,
        }
    }
}

/// Orientation of a line.
#[derive(Clone, Copy, PartialEq, Eq, Structural, Debug)]
pub enum Direction {
    Horizontal,
    Vertical,
}

/// The layer subsequent pixel operations target.
#[derive(Clone, Copy, PartialEq, Eq, Structural, Debug)]
pub enum Layer {
    Background,
    Foreground,
}

/// Metrics of a fixed-width glyph font.
#[derive(Clone, Copy, PartialEq, Eq, Structural, Debug)]
pub struct Font {
    /// Glyph width in pixels.
    pub width: u16,
    /// Glyph height in lines.
    pub height: u16,
}

/// The 16-bit pixel value assembling the given red, green and blue
/// components: five, six and five bits wide in turn.
pub open spec fn spec_assemble_rgb(r: u16, g: u16, b: u16) -> u16 {
    ((r & 0xF8) << 8) | ((g & 0xFC) << 3) | ((b & 0xF8) >> 3)
}

/// Assemble a 16-bit pixel value from 8-bit red, green and blue components.
pub fn assemble_rgb(r: u16, g: u16, b: u16) -> (v: u16)
    ensures
        v == spec_assemble_rgb(r, g, b),
{
    ((r & 0xF8) << 8) | ((g & 0xFC) << 3) | ((b & 0xF8) >> 3)
}

/// The command-interface control lines.
enum CtrlLine {
    Ncs,
    Nwr,
}

/// The panel driver's software state.
pub struct Lcd {
    /// Metrics of the active font.
    pub current_font: Font,
    /// Color used for glyph foregrounds.
    pub current_text_color: Color,
    /// Color used for glyph backgrounds.
    pub current_back_color: Color,
    /// Framebuffer base of the layer pixel operations target.
    pub current_frame_buffer: u32,
    /// The layer pixel operations target.
    pub current_layer: Layer,
}

impl Lcd {
    /// Well-formedness: the target framebuffer matches the selected layer
    /// and the font has a drawable size.
    pub open spec fn wf(self) -> bool {
        &&& self.current_frame_buffer == (match self.current_layer {
            Layer::Background => LCD_FRAME_BUFFER_START,
            Layer::Foreground => (LCD_FRAME_BUFFER_START + LCD_BUFFER_OFFSET) as u32,
        })
        &&& 1 <= self.current_font.width
        &&& 1 <= self.current_font.height
    }

    /// A driver targeting the background layer, black text on white.
    pub fn new() -> (l: Lcd)
        ensures
            l == (Lcd {
                current_font: Font { width: 8, height: 12 },
                current_text_color: Color::Black,
                current_back_color: Color::White,
                current_frame_buffer: LCD_FRAME_BUFFER_START,
                current_layer: Layer::Background,
            }),
            l.wf(),
    {
        Lcd {
            current_font: Font { width: 8, height: 12 },
            current_text_color: Color::Black,
            current_back_color: Color::White,
            current_frame_buffer: LCD_FRAME_BUFFER_START,
            current_layer: Layer::Background,
        }
    }

    /// Point subsequent pixel operations at the given layer's framebuffer.
    /// This is a software-side selector; no register is touched until the
    /// next pixel operation.
    pub fn set_layer(&mut self, l: Layer)
        requires
            old(self).wf(),
        ensures
            *final(self) == (Lcd {
                current_frame_buffer: (match l {
                    Layer::Background => LCD_FRAME_BUFFER_START,
                    Layer::Foreground => (LCD_FRAME_BUFFER_START + LCD_BUFFER_OFFSET) as u32,
                }),
                current_layer: l,
                ..*old(self)
            }),
            final(self).wf(),
    {
        match l {
            Layer::Background => {
                self.current_frame_buffer = LCD_FRAME_BUFFER_START;
            },
            Layer::Foreground => {
                self.current_frame_buffer = LCD_FRAME_BUFFER_START + LCD_BUFFER_OFFSET;
            },
        }
        self.current_layer = l;
    }

    /// Set the text and background colors.
    pub fn set_colors(&mut self, tc: Color, bc: Color)
        ensures
            *final(self) == (Lcd {
                current_text_color: tc,
                current_back_color: bc,
                ..*old(self)
            }),
    {
        self.current_back_color = bc;
        self.current_text_color = tc;
    }

    /// The current text and background colors, in that order.
    pub fn get_colors(&self) -> (c: (Color, Color))
        ensures
            c == (self.current_text_color, self.current_back_color),
    {
        (self.current_text_color, self.current_back_color)
    }

    /// Set the text color.
    pub fn set_text_color(&mut self, tc: Color)
        ensures
            *final(self) == (Lcd { current_text_color: tc, ..*old(self) }),
    {
        self.current_text_color = tc;
    }

    /// Set the background color.
    pub fn set_back_color(&mut self, bc: Color)
        ensures
            *final(self) == (Lcd { current_back_color: bc, ..*old(self) }),
    {
        self.current_back_color = bc;
    }

    /// Metrics of the active font.
    pub fn get_font(&self) -> (f: Font)
        ensures
            f == self.current_font,
    {
        self.current_font
    }

    /// The framebuffer address of the pixel at `(x, y)` on the active layer.
    pub fn set_cursor(&mut self, x: u16, y: u16) -> (addr: u32)
        requires
            old(self).wf(),
        ensures
            *final(self) == *old(self),
            addr == old(self).current_frame_buffer + 2 * (x + (LCD_WIDTH as int) * y),
    {
        proof {
            assert(240u32 * (y as u32) <= 15728400) by (nonlinear_arith)
                requires
                    y <= 65535,
            ;
        }
        self.current_frame_buffer + 2 * ((x as u32) + (LCD_WIDTH as u32) * (y as u32))
    }
}

/// One pin after it was routed to an alternate function at high speed; the
/// command and pixel bus pins leave output type and pull untouched.
pub open spec fn spec_af_pin(p: GpioPort, pin: u8, af: gpio::AltFn) -> GpioPort {
    let q = GpioPort {
        moder: reg::with_field(p.moder, (pin * 2) as u32, 2, 0b10),
        ospeedr: reg::with_field(p.ospeedr, (pin * 2) as u32, 2, 0b10),
        ..p
    };
    if pin > 7 {
        GpioPort { afrh: reg::with_field(q.afrh, ((pin - 8) * 4) as u32, 4, af.spec_bits()), ..q }
    } else {
        GpioPort { afrl: reg::with_field(q.afrl, (pin * 4) as u32, 4, af.spec_bits()), ..q }
    }
}

/// Route one pin to an alternate function at high speed.
fn af_pin(port: &mut GpioPort, pin: u8, af: gpio::AltFn)
    requires
        pin <= 15,
    ensures
        *final(port) == spec_af_pin(*old(port), pin, af),
{
    reg::modify_field(&mut port.moder, (pin as u32) * 2, 2, 0b10);
    reg::modify_field(&mut port.ospeedr, (pin as u32) * 2, 2, 0b10);
    if pin > 7 {
        reg::modify_field(&mut port.afrh, ((pin - 8) as u32) * 4, 4, af.bits());
    } else {
        reg::modify_field(&mut port.afrl, (pin as u32) * 4, 4, af.bits());
    }
}

/// One pin after it was released: mode, pull and alternate function cleared.
pub open spec fn spec_release_pin(p: GpioPort, pin: u8) -> GpioPort {
    let q = GpioPort {
        moder: reg::with_field(p.moder, (pin * 2) as u32, 2, 0),
        pupdr: reg::with_field(p.pupdr, (pin * 2) as u32, 2, 0),
        ..p
    };
    if pin > 7 {
        GpioPort { afrh: reg::with_field(q.afrh, ((pin - 8) * 4) as u32, 4, 0), ..q }
    } else {
        GpioPort { afrl: reg::with_field(q.afrl, (pin * 4) as u32, 4, 0), ..q }
    }
}

/// Clear one pin's mode, pull and alternate-function fields.
fn release_pin(port: &mut GpioPort, pin: u8)
    requires
        pin <= 15,
    ensures
        *final(port) == spec_release_pin(*old(port), pin),
{
    reg::modify_field(&mut port.moder, (pin as u32) * 2, 2, 0);
    reg::modify_field(&mut port.pupdr, (pin as u32) * 2, 2, 0);
    if pin > 7 {
        reg::modify_field(&mut port.afrh, ((pin - 8) as u32) * 4, 4, 0);
    } else {
        reg::modify_field(&mut port.afrl, (pin as u32) * 4, 4, 0);
    }
}

/// Port A after its pixel bus pins were routed.
pub open spec fn spec_lcd_port_a(p: GpioPort) -> GpioPort {
    spec_af_pin(
        spec_af_pin(
            spec_af_pin(
                spec_af_pin(spec_af_pin(p, 3, gpio::AltFn::Lcd), 4, gpio::AltFn::Lcd),
                6,
                gpio::AltFn::Lcd,
            ),
            11,
            gpio::AltFn::Lcd,
        ),
        12,
        gpio::AltFn::Lcd,
    )
}

/// Port B after its pixel bus pins were routed; pins 0 and 1 carry the
/// timer-block function the panel's high-order color lines use.
pub open spec fn spec_lcd_port_b(p: GpioPort) -> GpioPort {
    spec_af_pin(
        spec_af_pin(
            spec_af_pin(
                spec_af_pin(
                    spec_af_pin(
                        spec_af_pin(p, 0, gpio::AltFn::Can12Tim121314Lcd),
                        1,
                        gpio::AltFn::Can12Tim121314Lcd,
                    ),
                    8,
                    gpio::AltFn::Lcd,
                ),
                9,
                gpio::AltFn::Lcd,
            ),
            10,
            gpio::AltFn::Lcd,
        ),
        11,
        gpio::AltFn::Lcd,
    )
}

/// Port C after its pixel bus pins were routed.
pub open spec fn spec_lcd_port_c(p: GpioPort) -> GpioPort {
    spec_af_pin(
        spec_af_pin(spec_af_pin(p, 6, gpio::AltFn::Lcd), 7, gpio::AltFn::Lcd),
        10,
        gpio::AltFn::Lcd,
    )
}

/// Port D after its pixel bus pins were routed.
pub open spec fn spec_lcd_port_d(p: GpioPort) -> GpioPort {
    spec_af_pin(spec_af_pin(p, 3, gpio::AltFn::Lcd), 6, gpio::AltFn::Lcd)
}

/// Port F after its pixel bus pin was routed.
pub open spec fn spec_lcd_port_f(p: GpioPort) -> GpioPort {
    spec_af_pin(p, 10, gpio::AltFn::Lcd)
}

/// Port G after its pixel bus pins were routed; pins 10 and 12 carry the
/// timer-block function the panel's high-order color lines use.
pub open spec fn spec_lcd_port_g(p: GpioPort) -> GpioPort {
    spec_af_pin(
        spec_af_pin(
            spec_af_pin(
                spec_af_pin(spec_af_pin(p, 6, gpio::AltFn::Lcd), 7, gpio::AltFn::Lcd),
                10,
                gpio::AltFn::Can12Tim121314Lcd,
            ),
            11,
            gpio::AltFn::Lcd,
        ),
        12,
        gpio::AltFn::Can12Tim121314Lcd,
    )
}

/// Port F after the command bus pins were routed to the SPI function.
pub open spec fn spec_lcd_spi_gpio(p: GpioPort) -> GpioPort {
    spec_af_pin(
        spec_af_pin(spec_af_pin(p, 7, gpio::AltFn::Spi123456), 8, gpio::AltFn::Spi123456),
        9,
        gpio::AltFn::Spi123456,
    )
}

/// The command SPI control word over a previous register value: full
/// duplex, no CRC, 8-bit frames, most-significant bit first, clock divided
/// by sixteen, master role, peripheral enabled.
pub open spec fn spec_lcd_spi_cr1(prev: u32) -> u32 {
    reg::with_bit(
        reg::with_bit(
            reg::with_field(
                reg::with_bit(
                    reg::with_bit(
                        reg::with_bit(
                            reg::with_bit(reg::with_bit(prev, 15, false), 13, false),
                            11,
                            false,
                        ),
                        10,
                        false,
                    ),
                    7,
                    false,
                ),
                3,
                3,
                0b011,
            ),
            2,
            true,
        ),
        6,
        true,
    )
}

/// Port C after the command-interface prelude: chip-select pin in output
/// mode, its line raised, then pulsed high and released low to reset the
/// panel's command latch.
pub open spec fn spec_lcd_pc_prelude(p: GpioPort) -> GpioPort {
    gpio::spec_write(
        gpio::spec_write(
            gpio::spec_write(
                GpioPort { moder: reg::with_field(p.moder, 4, 2, 0b01), ..p },
                2,
                true,
            ),
            2,
            true,
        ),
        2,
        false,
    )
}

/// The global timing registers after the bring-up: sync signals active low,
/// pixel clock uninverted, background color black, and the panel's total,
/// active, back-porch and sync-width cycle counts in their minus-one
/// encodings.
pub open spec fn spec_lcd_timing(l: LtdcRegs) -> LtdcRegs {
    LtdcRegs {
        gcr: reg::with_bit(
            reg::with_bit(reg::with_bit(reg::with_bit(l.gcr, 31, false), 30, false), 29, false),
            28,
            false,
        ),
        bccr: 0,
        twcr: reg::with_field(reg::with_field(l.twcr, 16, 10, 279), 0, 11, 327),
        awcr: reg::with_field(reg::with_field(l.awcr, 16, 10, 323), 0, 11, 269),
        bpcr: reg::with_field(reg::with_field(l.bpcr, 16, 10, 29), 0, 11, 3),
        sscr: reg::with_field(reg::with_field(l.sscr, 16, 10, 9), 0, 11, 1),
        ..l
    }
}

/// One layer's registers after its bring-up: window covering the active
/// area, the fixed 16-bit pixel format, full constant alpha, black default
/// color, the given blend factor pair, framebuffer at `base` with the
/// panel's stride, and the panel's line count.
pub open spec fn spec_layer_cfg(lr: LtdcLayerRegs, base: u32, bf: u32) -> LtdcLayerRegs {
    LtdcLayerRegs {
        whpcr: reg::with_field(reg::with_field(lr.whpcr, 16, 12, 269), 0, 12, 30),
        wvpcr: reg::with_field(reg::with_field(lr.wvpcr, 16, 11, 323), 0, 11, 4),
        pfcr: reg::with_field(lr.pfcr, 0, 3, 0b010),
        cacr: reg::with_field(lr.cacr, 0, 8, 255),
        dccr: reg::with_field(
            reg::with_field(
                reg::with_field(reg::with_field(lr.dccr, 24, 8, 0), 16, 8, 0),
                8,
                8,
                0,
            ),
            0,
            8,
            0,
        ),
        bfcr: reg::with_field(reg::with_field(lr.bfcr, 8, 3, bf), 0, 3, bf),
        cfbar: base,
        cfblr: reg::with_field(reg::with_field(lr.cfblr, 16, 13, 480), 0, 13, 483),
        cfblnr: reg::with_field(lr.cfblnr, 0, 11, 320),
        ..lr
    }
}

/// Program one layer: window position, pixel format, alpha, default color,
/// blend factors, framebuffer base, stride and line count.
fn configure_layer(lr: &mut LtdcLayerRegs, base: u32, bf: u32)
    ensures
        *final(lr) == spec_layer_cfg(*old(lr), base, bf),
{
    reg::modify_field(&mut lr.whpcr, 16, 12, 269);
    reg::modify_field(&mut lr.whpcr, 0, 12, 30);
    reg::modify_field(&mut lr.wvpcr, 16, 11, 323);
    reg::modify_field(&mut lr.wvpcr, 0, 11, 4);
    reg::modify_field(&mut lr.pfcr, 0, 3, 0b010);
    reg::modify_field(&mut lr.cacr, 0, 8, 255);
    reg::modify_field(&mut lr.dccr, 24, 8, 0);
    reg::modify_field(&mut lr.dccr, 16, 8, 0);
    reg::modify_field(&mut lr.dccr, 8, 8, 0);
    reg::modify_field(&mut lr.dccr, 0, 8, 0);
    reg::modify_field(&mut lr.bfcr, 8, 3, bf);
    reg::modify_field(&mut lr.bfcr, 0, 3, bf);
    lr.cfbar = base;
    reg::modify_field(&mut lr.cfblr, 16, 13, 480);
    reg::modify_field(&mut lr.cfblr, 0, 13, 483);
    reg::modify_field(&mut lr.cfblnr, 0, 11, 320);
}

impl Lcd {
    /// Drive the chip-select line of the command interface.
    fn chip_select(&self, pc: &mut GpioPort, en: bool)
        ensures
            *final(pc) == gpio::spec_write(*old(pc), 2, en),
    {
        let _ = gpio::write(pc, 2, en);
    }

    /// Drive one command-interface control line.
    fn write_ctrl_line(pc: &mut GpioPort, pd: &mut GpioPort, l: CtrlLine, state: bool)
        ensures
            match l {
                CtrlLine::Ncs => *final(pc) == (GpioPort {
                    odr: reg::with_bit(old(pc).odr, 2, state),
                    ..*old(pc)
                }) && *final(pd) == *old(pd),
                CtrlLine::Nwr => *final(pd) == (GpioPort {
                    odr: reg::with_bit(old(pd).odr, 13, state),
                    ..*old(pd)
                }) && *final(pc) == *old(pc),
            },
    {
        match l {
            CtrlLine::Ncs => reg::modify_bit(&mut pc.odr, 2, state),
            CtrlLine::Nwr => reg::modify_bit(&mut pd.odr, 13, state),
        }
    }

    /// Claim the command-interface control lines: clock their ports, put the
    /// chip-select and write lines in output mode and raise chip-select.
    fn configure_ctrl_lines(rcc: &mut RccRegs, pc: &mut GpioPort, pd: &mut GpioPort)
        ensures
            *final(rcc) == (RccRegs {
                ahb1enr: old(rcc).ahb1enr | (rcc::AHB1_GPIOC | rcc::AHB1_GPIOD),
                ..*old(rcc)
            }),
            *final(pc) == (GpioPort {
                moder: reg::with_field(old(pc).moder, 4, 2, 0b01),
                odr: reg::with_bit(old(pc).odr, 2, true),
                ..*old(pc)
            }),
            *final(pd) == (GpioPort { moder: reg::with_field(old(pd).moder, 26, 2, 0b01), ..*old(
                pd,
            ) }),
    {
        rcc::set_ahb1_periph_clk(rcc, rcc::AHB1_GPIOC | rcc::AHB1_GPIOD, true);
        reg::modify_field(&mut pc.moder, 4, 2, 0b01);
        reg::modify_field(&mut pd.moder, 26, 2, 0b01);
        Lcd::write_ctrl_line(pc, pd, CtrlLine::Ncs, true);
    }

    /// Claim the command SPI link: clock its port and peripheral, route the
    /// bus pins, and program the control register unless the peripheral is
    /// already enabled.
    fn configure_spi(rcc: &mut RccRegs, pf: &mut GpioPort, spi: &mut SpiRegs)
        ensures
            *final(rcc) == (RccRegs {
                ahb1enr: old(rcc).ahb1enr | rcc::AHB1_GPIOF,
                apb2enr: old(rcc).apb2enr | rcc::APB2_SPI5,
                ..*old(rcc)
            }),
            *final(pf) == spec_lcd_spi_gpio(*old(pf)),
            final(spi).cr1 == (if reg::get_bit(old(spi).cr1, 6) {
                old(spi).cr1
            } else {
                spec_lcd_spi_cr1(old(spi).cr1)
            }),
            final(spi).cr2 == old(spi).cr2,
            final(spi).tx@ == old(spi).tx@,
            final(spi).rx@ == old(spi).rx@,
    {
        rcc::set_ahb1_periph_clk(rcc, rcc::AHB1_GPIOF, true);
        rcc::set_apb2_periph_clk(rcc, rcc::APB2_SPI5, true);
        af_pin(pf, 7, gpio::AltFn::Spi123456);
        af_pin(pf, 8, gpio::AltFn::Spi123456);
        af_pin(pf, 9, gpio::AltFn::Spi123456);
        // Do not reprogram an already enabled peripheral.
        if !reg::read_bit(spi.cr1, 6) {
            reg::modify_bit(&mut spi.cr1, 15, false);
            reg::modify_bit(&mut spi.cr1, 13, false);
            reg::modify_bit(&mut spi.cr1, 11, false);
            reg::modify_bit(&mut spi.cr1, 10, false);
            reg::modify_bit(&mut spi.cr1, 7, false);
            reg::modify_field(&mut spi.cr1, 3, 3, 0b011);
            reg::modify_bit(&mut spi.cr1, 2, true);
            reg::modify_bit(&mut spi.cr1, 6, true);
        }
    }

    /// Route every pixel bus pin of ports A through G to its alternate
    /// function at high speed.
    fn configure_alt_fn_gpios(
        pa: &mut GpioPort,
        pb: &mut GpioPort,
        pc: &mut GpioPort,
        pd: &mut GpioPort,
        pf: &mut GpioPort,
        pg: &mut GpioPort,
    )
        ensures
            *final(pa) == spec_lcd_port_a(*old(pa)),
            *final(pb) == spec_lcd_port_b(*old(pb)),
            *final(pc) == spec_lcd_port_c(*old(pc)),
            *final(pd) == spec_lcd_port_d(*old(pd)),
            *final(pf) == spec_lcd_port_f(*old(pf)),
            *final(pg) == spec_lcd_port_g(*old(pg)),
    {
        af_pin(pa, 3, gpio::AltFn::Lcd);
        af_pin(pa, 4, gpio::AltFn::Lcd);
        af_pin(pa, 6, gpio::AltFn::Lcd);
        af_pin(pa, 11, gpio::AltFn::Lcd);
        af_pin(pa, 12, gpio::AltFn::Lcd);
        af_pin(pb, 0, gpio::AltFn::Can12Tim121314Lcd);
        af_pin(pb, 1, gpio::AltFn::Can12Tim121314Lcd);
        af_pin(pb, 8, gpio::AltFn::Lcd);
        af_pin(pb, 9, gpio::AltFn::Lcd);
        af_pin(pb, 10, gpio::AltFn::Lcd);
        af_pin(pb, 11, gpio::AltFn::Lcd);
        af_pin(pc, 6, gpio::AltFn::Lcd);
        af_pin(pc, 7, gpio::AltFn::Lcd);
        af_pin(pc, 10, gpio::AltFn::Lcd);
        af_pin(pd, 3, gpio::AltFn::Lcd);
        af_pin(pd, 6, gpio::AltFn::Lcd);
        af_pin(pf, 10, gpio::AltFn::Lcd);
        af_pin(pg, 6, gpio::AltFn::Lcd);
        af_pin(pg, 7, gpio::AltFn::Lcd);
        af_pin(pg, 10, gpio::AltFn::Can12Tim121314Lcd);
        af_pin(pg, 11, gpio::AltFn::Lcd);
        af_pin(pg, 12, gpio::AltFn::Can12Tim121314Lcd);
    }

    /// Bring the display up, in the fixed order: claim the command control
    /// lines, pulse chip-select to reset the panel's command latch, claim
    /// the command SPI link, run the panel power-on sequence, enable the
    /// display-controller and accelerator clock domains, route the pixel
    /// bus pins, bring the external memory up, program and start the pixel
    /// clock branch and poll it ready, then program sync polarities and the
    /// panel's timing counts.
    #[verifier::loop_isolation(false)]
    pub fn init(
        &mut self,
        rcc: &mut RccRegs,
        pa: &mut GpioPort,
        pb: &mut GpioPort,
        pc: &mut GpioPort,
        pd: &mut GpioPort,
        pe: &mut GpioPort,
        pf: &mut GpioPort,
        pg: &mut GpioPort,
        spi: &mut SpiRegs,
        fmc: &mut FmcRegs,
        ltdc: &mut LtdcRegs,
    )
        requires
            old(rcc).cr & rcc::CR_PLLSAIRDY != 0,
            !reg::get_bit(old(fmc).sdsr, sdram::SDSR_BUSY_BIT),
        ensures
            *final(self) == *old(self),
            *final(rcc) == (RccRegs {
                cr: old(rcc).cr | rcc::CR_PLLSAION,
                ahb1enr: (((old(rcc).ahb1enr | (rcc::AHB1_GPIOC | rcc::AHB1_GPIOD))
                    | rcc::AHB1_GPIOF) | rcc::AHB1_DMA2D) | (rcc::AHB1_GPIOB | rcc::AHB1_GPIOC
                    | rcc::AHB1_GPIOD | rcc::AHB1_GPIOE | rcc::AHB1_GPIOF | rcc::AHB1_GPIOG),
                ahb3enr: rcc::AHB3_FMC,
                apb2enr: (old(rcc).apb2enr | rcc::APB2_SPI5) | rcc::APB2_LTDC,
                pllsaicfgr: rcc::spec_pllsaicfgr(old(rcc).pllsaicfgr, 4, 7, 192),
                dckcfgr: reg::with_field(old(rcc).dckcfgr, 16, 2, 0b10),
                ..*old(rcc)
            }),
            *final(pa) == spec_lcd_port_a(*old(pa)),
            *final(pb) == sdram::spec_fmc_port_b(spec_lcd_port_b(*old(pb))),
            *final(pc) == sdram::spec_fmc_port_c(spec_lcd_port_c(spec_lcd_pc_prelude(*old(pc)))),
            *final(pd) == sdram::spec_fmc_port_d(
                spec_lcd_port_d(
                    (GpioPort { moder: reg::with_field(old(pd).moder, 26, 2, 0b01), ..*old(pd) }),
                ),
            ),
            *final(pe) == sdram::spec_fmc_port_e(*old(pe)),
            *final(pf) == sdram::spec_fmc_port_f(spec_lcd_port_f(spec_lcd_spi_gpio(*old(pf)))),
            *final(pg) == sdram::spec_fmc_port_g(spec_lcd_port_g(*old(pg))),
            final(spi).cr1 == (if reg::get_bit(old(spi).cr1, 6) {
                old(spi).cr1
            } else {
                spec_lcd_spi_cr1(old(spi).cr1)
            }),
            final(spi).cr2 == old(spi).cr2,
            final(spi).tx@ == old(spi).tx@,
            final(spi).rx@ == old(spi).rx@,
            final(fmc).sdcr1 == reg::with_field(
                reg::with_bit(reg::with_field(old(fmc).sdcr1, 13, 2, 0b01), 12, false),
                10,
                2,
                0b10,
            ),
            final(fmc).sdcr2 == reg::with_bit(sdram::spec_sdcr2_cfg(old(fmc).sdcr2), 9, false),
            final(fmc).sdtr1 == reg::with_field(
                reg::with_field(old(fmc).sdtr1, 20, 4, 2),
                12,
                4,
                7,
            ),
            final(fmc).sdtr2 == sdram::spec_sdtr2_cfg(old(fmc).sdtr2),
            final(fmc).cmds@ == old(fmc).cmds@ + sdram::spec_init_cmds(old(fmc).sdcmr),
            final(fmc).sdcmr == sdram::spec_init_cmds(old(fmc).sdcmr)[4],
            final(fmc).sdrtr == reg::with_field(old(fmc).sdrtr, 1, 13, 1366),
            final(fmc).sdsr == old(fmc).sdsr,
            *final(ltdc) == spec_lcd_timing(*old(ltdc)),
    {
        Lcd::configure_ctrl_lines(rcc, pc, pd);
        self.chip_select(pc, true);
        self.chip_select(pc, false);
        Lcd::configure_spi(rcc, pf, spi);
        self.power_on();
        rcc::set_apb2_periph_clk(rcc, rcc::APB2_LTDC, true);
        rcc::set_ahb1_periph_clk(rcc, rcc::AHB1_DMA2D, true);
        Lcd::configure_alt_fn_gpios(pa, pb, pc, pd, pf, pg);
        sdram::init(rcc, fmc, pb, pc, pd, pe, pf, pg);
        // The pixel clock branch: its PLL parameters are constants within
        // every documented range, divided down by eight for the panel.
        let _ = rcc::conf_sai_pll(rcc, 4, 7, 192);
        rcc::conf_lcd_pllsai_divr(rcc, rcc::LcdPllSaiDiv::Div8);
        rcc::clock_ctrl(rcc, rcc::CR_PLLSAION, true);
        proof {
            reg::lemma_or_keeps_mask(old(rcc).cr, rcc::CR_PLLSAION, rcc::CR_PLLSAIRDY);
        }
        while !rcc::check_flag(rcc, rcc::CR_PLLSAIRDY)
            decreases 0int,
        {
        }
        // Sync polarities active low, pixel clock uninverted.
        reg::modify_bit(&mut ltdc.gcr, 31, false);
        reg::modify_bit(&mut ltdc.gcr, 30, false);
        reg::modify_bit(&mut ltdc.gcr, 29, false);
        reg::modify_bit(&mut ltdc.gcr, 28, false);
        ltdc.bccr = 0;
        // Total, active, back-porch and sync-width cycle counts, each in the
        // hardware's minus-one encoding.
        reg::modify_field(&mut ltdc.twcr, 16, 10, 279);
        reg::modify_field(&mut ltdc.twcr, 0, 11, 327);
        reg::modify_field(&mut ltdc.awcr, 16, 10, 323);
        reg::modify_field(&mut ltdc.awcr, 0, 11, 269);
        reg::modify_field(&mut ltdc.bpcr, 16, 10, 29);
        reg::modify_field(&mut ltdc.bpcr, 0, 11, 3);
        reg::modify_field(&mut ltdc.sscr, 16, 10, 9);
        reg::modify_field(&mut ltdc.sscr, 0, 11, 1);
    }

    /// Program both layers and enable them: the background layer blends by
    /// constant alpha alone, the foreground by pixel alpha times constant
    /// alpha; their framebuffers sit a fixed offset apart, the
    /// configuration is committed by immediate reload, dithering is
    /// enabled, and the active font becomes the large one.
    pub fn init_layers(&mut self, ltdc: &mut LtdcRegs)
        ensures
            *final(self) == (Lcd { current_font: Font { width: 16, height: 24 }, ..*old(self) }),
            *final(ltdc) == (LtdcRegs {
                gcr: reg::with_bit(old(ltdc).gcr, 16, true),
                srcr: reg::with_bit(old(ltdc).srcr, 0, true),
                layer1: LtdcLayerRegs {
                    cr: reg::with_bit(old(ltdc).layer1.cr, 0, true),
                    ..spec_layer_cfg(old(ltdc).layer1, LCD_FRAME_BUFFER_START, 0b100)
                },
                layer2: LtdcLayerRegs {
                    cr: reg::with_bit(old(ltdc).layer2.cr, 0, true),
                    ..spec_layer_cfg(
                        old(ltdc).layer2,
                        (LCD_FRAME_BUFFER_START + LCD_BUFFER_OFFSET) as u32,
                        0b110,
                    )
                },
                ..*old(ltdc)
            }),
            old(self).wf() ==> final(self).wf(),
    {
        configure_layer(&mut ltdc.layer1, LCD_FRAME_BUFFER_START, 0b100);
        configure_layer(&mut ltdc.layer2, LCD_FRAME_BUFFER_START + LCD_BUFFER_OFFSET, 0b110);
        // Commit immediately and enable both layers.
        reg::modify_bit(&mut ltdc.srcr, 0, true);
        reg::modify_bit(&mut ltdc.layer1.cr, 0, true);
        reg::modify_bit(&mut ltdc.layer2.cr, 0, true);
        self.current_font = Font { width: 16, height: 24 };
        // Dithering on.
        reg::modify_bit(&mut ltdc.gcr, 16, true);
    }

    /// Undo the bring-up: switch the display off, disable and reset the
    /// command SPI link, gate its clock off, and release every claimed pin's
    /// mode, pull and alternate-function fields.
    pub fn deinit(
        &mut self,
        rcc: &mut RccRegs,
        spi: &mut SpiRegs,
        pa: &mut GpioPort,
        pb: &mut GpioPort,
        pc: &mut GpioPort,
        pd: &mut GpioPort,
        pf: &mut GpioPort,
        pg: &mut GpioPort,
    )
        ensures
            *final(self) == *old(self),
            final(spi).cr1 == 0,
            final(spi).cr2 == 0,
            final(spi).tx@ == old(spi).tx@,
            final(spi).rx@ == old(spi).rx@,
            *final(rcc) == (RccRegs { apb2enr: old(rcc).apb2enr & !rcc::APB2_SPI5, ..*old(
                rcc,
            ) }),
            *final(pa) == spec_release_pins_a(*old(pa)),
            *final(pb) == spec_release_pins_b(*old(pb)),
            *final(pc) == spec_release_pins_c(*old(pc)),
            *final(pd) == spec_release_pins_d(*old(pd)),
            *final(pf) == spec_release_pins_f(*old(pf)),
            *final(pg) == spec_release_pins_g(*old(pg)),
    {
        self.display_off();
        reg::modify_bit(&mut spi.cr1, 6, false);
        spi.cr1 = 0;
        spi.cr2 = 0;
        rcc::set_apb2_periph_clk(rcc, rcc::APB2_SPI5, false);
        release_pin(pa, 3);
        release_pin(pa, 4);
        release_pin(pa, 6);
        release_pin(pa, 11);
        release_pin(pa, 12);
        release_pin(pb, 0);
        release_pin(pb, 1);
        release_pin(pb, 8);
        release_pin(pb, 9);
        release_pin(pb, 10);
        release_pin(pb, 11);
        release_pin(pc, 2);
        release_pin(pc, 6);
        release_pin(pc, 7);
        release_pin(pc, 10);
        release_pin(pd, 3);
        release_pin(pd, 6);
        release_pin(pf, 7);
        release_pin(pf, 8);
        release_pin(pf, 9);
        release_pin(pf, 10);
        release_pin(pg, 6);
        release_pin(pg, 7);
        release_pin(pg, 10);
        release_pin(pg, 11);
        release_pin(pg, 12);
    }

    /// Set the active layer's constant alpha and commit it immediately.
    pub fn set_transparency(&self, ltdc: &mut LtdcRegs, tr: u8)
        ensures
            *final(ltdc) == (match self.current_layer {
                Layer::Background => LtdcRegs {
                    layer1: LtdcLayerRegs {
                        cacr: reg::with_field(old(ltdc).layer1.cacr, 0, 8, tr as u32),
                        ..old(ltdc).layer1
                    },
                    srcr: reg::with_bit(old(ltdc).srcr, 0, true),
                    ..*old(ltdc)
                },
                Layer::Foreground => LtdcRegs {
                    layer2: LtdcLayerRegs {
                        cacr: reg::with_field(old(ltdc).layer2.cacr, 0, 8, tr as u32),
                        ..old(ltdc).layer2
                    },
                    srcr: reg::with_bit(old(ltdc).srcr, 0, true),
                    ..*old(ltdc)
                },
            }),
    {
        match self.current_layer {
            Layer::Background => {
                reg::modify_field(&mut ltdc.layer1.cacr, 0, 8, tr as u32);
            },
            Layer::Foreground => {
                reg::modify_field(&mut ltdc.layer2.cacr, 0, 8, tr as u32);
            },
        }
        reg::modify_bit(&mut ltdc.srcr, 0, true);
    }

    /// Key out the given packed red-green-blue color on the active layer and
    /// commit it immediately.
    pub fn set_color_keying(&self, ltdc: &mut LtdcRegs, rgb_val: u32)
        ensures
            *final(ltdc) == (match self.current_layer {
                Layer::Background => LtdcRegs {
                    layer1: LtdcLayerRegs {
                        ckcr: spec_ck_value(old(ltdc).layer1.ckcr, rgb_val),
                        cr: reg::with_bit(old(ltdc).layer1.cr, 1, true),
                        ..old(ltdc).layer1
                    },
                    srcr: reg::with_bit(old(ltdc).srcr, 0, true),
                    ..*old(ltdc)
                },
                Layer::Foreground => LtdcRegs {
                    layer2: LtdcLayerRegs {
                        ckcr: spec_ck_value(old(ltdc).layer2.ckcr, rgb_val),
                        cr: reg::with_bit(old(ltdc).layer2.cr, 1, true),
                        ..old(ltdc).layer2
                    },
                    srcr: reg::with_bit(old(ltdc).srcr, 0, true),
                    ..*old(ltdc)
                },
            }),
    {
        let red = reg::read_field(rgb_val, 16, 8);
        let green = reg::read_field(rgb_val, 8, 8);
        let blue = reg::read_field(rgb_val, 0, 8);
        match self.current_layer {
            Layer::Background => {
                reg::modify_field(&mut ltdc.layer1.ckcr, 16, 8, red);
                reg::modify_field(&mut ltdc.layer1.ckcr, 8, 8, green);
                reg::modify_field(&mut ltdc.layer1.ckcr, 0, 8, blue);
                reg::modify_bit(&mut ltdc.layer1.cr, 1, true);
            },
            Layer::Foreground => {
                reg::modify_field(&mut ltdc.layer2.ckcr, 16, 8, red);
                reg::modify_field(&mut ltdc.layer2.ckcr, 8, 8, green);
                reg::modify_field(&mut ltdc.layer2.ckcr, 0, 8, blue);
                reg::modify_bit(&mut ltdc.layer2.cr, 1, true);
            },
        }
        reg::modify_bit(&mut ltdc.srcr, 0, true);
    }

    /// Clear the active layer's color key to black, leaving keying switched
    /// on, and commit it immediately.
    pub fn reset_color_keying(&self, ltdc: &mut LtdcRegs)
        ensures
            *final(ltdc) == (match self.current_layer {
                Layer::Background => LtdcRegs {
                    layer1: LtdcLayerRegs {
                        ckcr: spec_ck_clear(old(ltdc).layer1.ckcr),
                        cr: reg::with_bit(old(ltdc).layer1.cr, 1, true),
                        ..old(ltdc).layer1
                    },
                    srcr: reg::with_bit(old(ltdc).srcr, 0, true),
                    ..*old(ltdc)
                },
                Layer::Foreground => LtdcRegs {
                    layer2: LtdcLayerRegs {
                        ckcr: spec_ck_clear(old(ltdc).layer2.ckcr),
                        cr: reg::with_bit(old(ltdc).layer2.cr, 1, true),
                        ..old(ltdc).layer2
                    },
                    srcr: reg::with_bit(old(ltdc).srcr, 0, true),
                    ..*old(ltdc)
                },
            }),
    {
        match self.current_layer {
            Layer::Background => {
                reg::modify_field(&mut ltdc.layer1.ckcr, 16, 8, 0);
                reg::modify_field(&mut ltdc.layer1.ckcr, 8, 8, 0);
                reg::modify_field(&mut ltdc.layer1.ckcr, 0, 8, 0);
                reg::modify_bit(&mut ltdc.layer1.cr, 1, true);
            },
            Layer::Foreground => {
                reg::modify_field(&mut ltdc.layer2.ckcr, 16, 8, 0);
                reg::modify_field(&mut ltdc.layer2.ckcr, 8, 8, 0);
                reg::modify_field(&mut ltdc.layer2.ckcr, 0, 8, 0);
                reg::modify_bit(&mut ltdc.layer2.cr, 1, true);
            },
        }
        reg::modify_bit(&mut ltdc.srcr, 0, true);
    }

    /// Fill the active layer's own framebuffer region with one color, two
    /// 16-bit pixel cells per memory word; the region spans exactly the
    /// fixed offset separating the two layers, so every word outside it —
    /// the other layer's region included — keeps its value.
    #[verifier::loop_isolation(false)]
    pub fn clear(&mut self, bank: &mut SdRamBank, color: Color)
        requires
            old(self).wf(),
            old(bank).wf(),
        ensures
            *final(self) == *old(self),
            final(bank).wf(),
            forall|j: int|
                spec_clear_start(*old(self)) <= j < spec_clear_start(*old(self)) + (
                LCD_BUFFER_OFFSET as int) / 4 ==> final(bank).words@[j] == spec_pixel_pair(color),
            forall|j: int|
                0 <= j < SDRAM_WORDS && !(spec_clear_start(*old(self)) <= j < spec_clear_start(
                    *old(self),
                ) + (LCD_BUFFER_OFFSET as int) / 4) ==> final(bank).words@[j] == old(
                    bank,
                ).words@[j],
    {
        let c: u16 = color.val();
        let word: u32 = (c as u32) | ((c as u32) << 16);
        let start: usize = ((self.current_frame_buffer - sdram::SDRAM_BANK_ADDR) / 4) as usize;
        let span: usize = (LCD_BUFFER_OFFSET as usize) / 4;
        let mut i: usize = 0;
        while i < span
            invariant
                i <= span,
                bank.words@.len() == SDRAM_WORDS,
                forall|j: int|
                    start <= j < start + i ==> bank.words@[j] == spec_pixel_pair(color),
                forall|j: int|
                    0 <= j < SDRAM_WORDS && !(start <= j < start + i) ==> bank.words@[j] == old(
                        bank,
                    ).words@[j],
            decreases span - i,
        {
            bank.words[start + i] = word;
            i = i + 1;
        }
    }

    /// Overwrite one text line with spaces, column by column.
    pub fn clear_line(&self, line: u16)
        requires
            self.wf(),
    {
        let w: u32 = self.current_font.width as u32;
        let mut ref_col: u32 = 0;
        while ref_col + w <= LCD_WIDTH as u32
            invariant
                self.wf(),
                w == self.current_font.width,
                ref_col <= LCD_WIDTH,
            decreases (LCD_WIDTH as int) - ref_col,
        {
            self.display_char(line, ref_col as u16, ' ');
            ref_col = ref_col + w;
        }
    }

    /// Draw one glyph at the given line and column; glyph rendering is a
    /// reserved surface and performs no memory access.
    pub fn display_char(&self, line: u16, col: u16, ascii: char) {
    }

    /// Draw a string on one text line; reserved surface.
    pub fn display_string_line(&self, line: u16, s: &str) {
    }

    /// Restrict drawing to a window; reserved surface.
    pub fn set_display_window(&self, x: u16, y: u16, w: u16, h: u16) -> (r: Result<(), LcdError>)
        ensures
            r == Ok::<(), LcdError>(()),
    {
        Ok(())
    }

    /// Lift the drawing window restriction; reserved surface.
    pub fn disable_window_mode(&self) {
    }

    /// Draw a straight line; reserved surface.
    pub fn draw_line(&self, x: u16, y: u16, l: u16, dir: Direction) -> (r: Result<(), LcdError>)
        ensures
            r == Ok::<(), LcdError>(()),
    {
        Ok(())
    }

    /// Draw a rectangle outline; reserved surface.
    pub fn draw_rect(&self, x: u16, y: u16, w: u16, h: u16) -> (r: Result<(), LcdError>)
        ensures
            r == Ok::<(), LcdError>(()),
    {
        Ok(())
    }

    /// Draw a circle outline; reserved surface.
    pub fn draw_circle(&self, x: u16, y: u16, r: u16) -> (res: Result<(), LcdError>)
        ensures
            res == Ok::<(), LcdError>(()),
    {
        Ok(())
    }

    /// Draw a filled ellipse; reserved surface.
    pub fn draw_full_ellipse(&self, x: u16, y: u16, r1: u16, r2: u16) -> (r: Result<(), LcdError>)
        ensures
            r == Ok::<(), LcdError>(()),
    {
        Ok(())
    }

    /// Draw an ellipse outline; reserved surface.
    pub fn draw_ellipse(&self, x: u16, y: u16, r1: u16, r2: u16) -> (r: Result<(), LcdError>)
        ensures
            r == Ok::<(), LcdError>(()),
    {
        Ok(())
    }

    /// Draw a monochrome picture; reserved surface.
    pub fn draw_mono_picture(&self, pic_addr: &u32) -> (r: Result<(), LcdError>)
        ensures
            r == Ok::<(), LcdError>(()),
    {
        Ok(())
    }

    /// Draw a bitmap; reserved surface.
    pub fn draw_bmp(&self, pic_addr: &u32) -> (r: Result<(), LcdError>)
        ensures
            r == Ok::<(), LcdError>(()),
    {
        Ok(())
    }

    /// Draw a filled rectangle; reserved surface.
    pub fn draw_full_rect(&self, x: u16, y: u16, w: u16, h: u16) -> (r: Result<(), LcdError>)
        ensures
            r == Ok::<(), LcdError>(()),
    {
        Ok(())
    }

    /// Draw a filled circle; reserved surface.
    pub fn draw_full_circle(&self, x: u16, y: u16, r: u16) -> (res: Result<(), LcdError>)
        ensures
            res == Ok::<(), LcdError>(()),
    {
        Ok(())
    }

    /// Draw a line between two points; reserved surface.
    pub fn draw_uniline(&self, p1: Point, p2: Point) -> (r: Result<(), LcdError>)
        ensures
            r == Ok::<(), LcdError>(()),
    {
        Ok(())
    }

    /// Draw a triangle outline; reserved surface.
    pub fn draw_triangle(&self, p1: Point, p2: Point, p3: Point) -> (r: Result<(), LcdError>)
        ensures
            r == Ok::<(), LcdError>(()),
    {
        Ok(())
    }

    /// Draw a filled triangle; reserved surface.
    pub fn draw_full_triangle(&self, p1: Point, p2: Point, p3: Point) -> (r: Result<(), LcdError>)
        ensures
            r == Ok::<(), LcdError>(()),
    {
        Ok(())
    }

    /// Draw a polyline, optionally closed; reserved surface.
    pub fn draw_polyline_closed(&self, p_list: &[Point], closed: bool) -> (r: Result<
        (),
        LcdError,
    >)
        ensures
            r == Ok::<(), LcdError>(()),
    {
        Ok(())
    }

    /// Draw a polyline of relative points, optionally closed; reserved
    /// surface.
    pub fn draw_polyline_relative_closed(&self, p_list: &[Point], closed: bool) -> (r: Result<
        (),
        LcdError,
    >)
        ensures
            r == Ok::<(), LcdError>(()),
    {
        Ok(())
    }

    /// Draw a filled polyline; reserved surface.
    pub fn draw_full_polyline(&self, p_list: &[Point]) -> (r: Result<(), LcdError>)
        ensures
            r == Ok::<(), LcdError>(()),
    {
        Ok(())
    }

    /// Write one pixel after checking it lies on the panel.
    pub fn put_pixel(&self, x: u16, y: u16) -> (r: Result<(), LcdError>)
        ensures
            x <= 239 && y <= 319 ==> r == Ok::<(), LcdError>(()),
            x > 239 || y > 319 ==> r == Err::<(), LcdError>(LcdError::OutOfScreen),
    {
        if x > 239 || y > 319 {
            return Err(LcdError::OutOfScreen);
        }
        let _ = self.draw_line(x, y, 1, Direction::Horizontal);
        Ok(())
    }

    /// Send one command byte to the panel; reserved surface.
    pub fn send_command(&self, cmd: Register) {
    }

    /// Send one data byte to the panel; reserved surface.
    pub fn send_data(&self, val: u8) {
    }

    /// Run the panel's vendor power-on command sequence; reserved surface.
    pub fn power_on(&self) {
    }

    /// Switch the panel on; reserved surface.
    pub fn display_on(&self) {
    }

    /// Switch the panel off; reserved surface.
    pub fn display_off(&self) {
    }
}

/// A color-key register holding the three channel bytes of a packed
/// red-green-blue value.
pub open spec fn spec_ck_value(prev: u32, rgb_val: u32) -> u32 {
    reg::with_field(
        reg::with_field(
            reg::with_field(prev, 16, 8, reg::get_field(rgb_val, 16, 8)),
            8,
            8,
            reg::get_field(rgb_val, 8, 8),
        ),
        0,
        8,
        reg::get_field(rgb_val, 0, 8),
    )
}

/// A color-key register cleared to black.
pub open spec fn spec_ck_clear(prev: u32) -> u32 {
    reg::with_field(reg::with_field(reg::with_field(prev, 16, 8, 0), 8, 8, 0), 0, 8, 0)
}

/// The first word of the active layer's framebuffer span in the memory
/// bank.
pub open spec fn spec_clear_start(l: Lcd) -> int {
    (l.current_frame_buffer - sdram::SDRAM_BANK_ADDR) / 4
}

/// Two pixels of one color packed into a memory word.
pub open spec fn spec_pixel_pair(color: Color) -> u32 {
    (color.spec_val() as u32) | ((color.spec_val() as u32) << 16)
}

/// Port A after the display pins were released.
pub open spec fn spec_release_pins_a(p: GpioPort) -> GpioPort {
    spec_release_pin(
        spec_release_pin(
            spec_release_pin(spec_release_pin(spec_release_pin(p, 3), 4), 6),
            11,
        ),
        12,
    )
}

/// Port B after the display pins were released.
pub open spec fn spec_release_pins_b(p: GpioPort) -> GpioPort {
    spec_release_pin(
        spec_release_pin(
            spec_release_pin(
                spec_release_pin(spec_release_pin(spec_release_pin(p, 0), 1), 8),
                9,
            ),
            10,
        ),
        11,
    )
}

/// Port C after the display pins were released.
pub open spec fn spec_release_pins_c(p: GpioPort) -> GpioPort {
    spec_release_pin(spec_release_pin(spec_release_pin(spec_release_pin(p, 2), 6), 7), 10)
}

/// Port D after the display pins were released.
pub open spec fn spec_release_pins_d(p: GpioPort) -> GpioPort {
    spec_release_pin(spec_release_pin(p, 3), 6)
}

/// Port F after the display pins were released.
pub open spec fn spec_release_pins_f(p: GpioPort) -> GpioPort {
    spec_release_pin(spec_release_pin(spec_release_pin(spec_release_pin(p, 7), 8), 9), 10)
}

/// Port G after the display pins were released.
pub open spec fn spec_release_pins_g(p: GpioPort) -> GpioPort {
    spec_release_pin(
        spec_release_pin(
            spec_release_pin(spec_release_pin(spec_release_pin(p, 6), 7), 10),
            11,
        ),
        12,
    )
}

/// Law: for any window within the panel's resolution, the two layers'
/// framebuffer byte ranges never overlap: each spans at most the fixed
/// offset separating their bases, so the background range ends at or before
/// the foreground base.
pub proof fn lemma_layers_disjoint(width: u16, height: u16)
    requires
        width <= LCD_WIDTH,
        height <= LCD_HEIGHT,
    ensures
        2 * width * height <= LCD_BUFFER_OFFSET,
        LCD_FRAME_BUFFER_START + 2 * width * height <= LCD_FRAME_BUFFER_START
            + LCD_BUFFER_OFFSET,
{
    assert(2 * width * height <= 153600) by (nonlinear_arith)
        requires
            width <= 240,
            height <= 320,
    ;
}

} // verus!
