//! Display timing generator: the pixel-timing and layer registers of the
//! tiled-display controller.
//!
//! [`set_layer_position`] is the narrow re-programming step that can run
//! independently of a full bring-up: it derives the window stop positions by
//! reading back the currently programmed back porch, pixel format, buffer
//! line length and line count, and rewrites the window start/stop registers.

use vstd::prelude::*;

use crate::reg;

verus! {

/// One of the two display layers.
#[derive(Clone, Copy, PartialEq, Eq, Structural, Debug)]
pub enum Layer {
    First,
    Second,
}

/// When a layer reconfiguration is taken over by the hardware.
#[derive(Clone, Copy, PartialEq, Eq, Structural, Debug)]
pub enum LayerReloadMethod {
    ImReload,
    VbReload,
}

/// Register block of one display layer.
#[derive(Clone, Copy, PartialEq, Eq, Structural, Debug)]
pub struct LtdcLayerRegs {
    /// Layer control register: enable, color keying, lookup table.
    pub cr: u32,
    /// Window horizontal start (low half) and stop (high half) positions.
    pub whpcr: u32,
    /// Window vertical start (low half) and stop (high half) positions.
    pub wvpcr: u32,
    /// Color keying register, one byte per channel.
    pub ckcr: u32,
    /// Pixel format register.
    pub pfcr: u32,
    /// Constant alpha register.
    pub cacr: u32,
    /// Default color register, one byte per channel and alpha.
    pub dccr: u32,
    /// Blend factor register.
    pub bfcr: u32,
    /// Color frame buffer start address.
    pub cfbar: u32,
    /// Color frame buffer pitch (high half) and line length (low half).
    pub cfblr: u32,
    /// Color frame buffer line count.
    pub cfblnr: u32,
}

impl LtdcLayerRegs {
    /// A layer with every register cleared.
    pub fn new() -> (l: LtdcLayerRegs)
        ensures
            l == (LtdcLayerRegs {
                cr: 0,
                whpcr: 0,
                wvpcr: 0,
                ckcr: 0,
                pfcr: 0,
                cacr: 0,
                dccr: 0,
                bfcr: 0,
                cfbar: 0,
                cfblr: 0,
                cfblnr: 0,
            }),
    {
        LtdcLayerRegs {
            cr: 0,
            whpcr: 0,
            wvpcr: 0,
            ckcr: 0,
            pfcr: 0,
            cacr: 0,
            dccr: 0,
            bfcr: 0,
            cfbar: 0,
            cfblr: 0,
            cfblnr: 0,
        }
    }
}

/// Register block of the display controller.
#[derive(Clone, Copy, PartialEq, Eq, Structural, Debug)]
pub struct LtdcRegs {
    /// Global control register: sync polarities, dither, enable.
    pub gcr: u32,
    /// Sync size register.
    pub sscr: u32,
    /// Back porch register.
    pub bpcr: u32,
    /// Active width register.
    pub awcr: u32,
    /// Total width register.
    pub twcr: u32,
    /// Background color register.
    pub bccr: u32,
    /// Shadow reload control register.
    pub srcr: u32,
    /// The background layer's registers.
    pub layer1: LtdcLayerRegs,
    /// The foreground layer's registers.
    pub layer2: LtdcLayerRegs,
}

impl LtdcRegs {
    /// A controller with every register cleared.
    pub fn new() -> (l: LtdcRegs)
        ensures
            l == (LtdcRegs {
                gcr: 0,
                sscr: 0,
                bpcr: 0,
                awcr: 0,
                twcr: 0,
                bccr: 0,
                srcr: 0,
                layer1: LtdcLayerRegs {
                    cr: 0,
                    whpcr: 0,
                    wvpcr: 0,
                    ckcr: 0,
                    pfcr: 0,
                    cacr: 0,
                    dccr: 0,
                    bfcr: 0,
                    cfbar: 0,
                    cfblr: 0,
                    cfblnr: 0,
                },
                layer2: LtdcLayerRegs {
                    cr: 0,
                    whpcr: 0,
                    wvpcr: 0,
                    ckcr: 0,
                    pfcr: 0,
                    cacr: 0,
                    dccr: 0,
                    bfcr: 0,
                    cfbar: 0,
                    cfblr: 0,
                    cfblnr: 0,
                },
            }),
    {
        LtdcRegs {
            gcr: 0,
            sscr: 0,
            bpcr: 0,
            awcr: 0,
            twcr: 0,
            bccr: 0,
            srcr: 0,
            layer1: LtdcLayerRegs::new(),
            layer2: LtdcLayerRegs::new(),
        }
    }
}

/// The register block of the selected layer.
pub open spec fn spec_sel_layer(l: LtdcRegs, which: Layer) -> LtdcLayerRegs {
    match which {
        Layer::First => l.layer1,
        Layer::Second => l.layer2,
    }
}

/// Bytes per pixel that a pixel-format register value selects; unknown
/// values fall back to one byte.
pub open spec fn spec_bpp(pfcr: u32) -> u32 {
    if pfcr == 0 {
        4u32
    } else if pfcr == 1 {
        3u32
    } else if 2 <= pfcr <= 4 {
        2u32
    } else if pfcr == 7 {
        2u32
    } else {
        1u32
    }
}

/// The layer after its window was re-positioned to `(xpos, ypos)`.
///
/// The start positions come from the programmed back porch plus one; the
/// stop positions are derived from the line length read back from the
/// buffer register, divided by the read-back pixel size, and the programmed
/// line count.
pub open spec fn spec_position(lr: LtdcLayerRegs, bpcr: u32, xpos: u16, ypos: u16) -> LtdcLayerRegs {
    let hstart = (reg::get_field(bpcr, 16, 16) + 1 + xpos) as u32;
    let vstart = (reg::get_field(bpcr, 0, 16) + 1 + ypos) as u32;
    let bpp = spec_bpp(lr.pfcr);
    let hstop = ((reg::get_field(lr.cfblr, 0, 11) - 3) / (bpp as int) + hstart - 1) as u32;
    let vstop = (reg::get_field(lr.cfblnr, 0, 11) + vstart - 1) as u32;
    LtdcLayerRegs { whpcr: hstart | (hstop << 16), wvpcr: vstart | (vstop << 16), ..lr }
}

/// Move one layer's window to `(xpos, ypos)`, reading the programmed pixel
/// format and buffer registers back to derive the window stop positions.
///
/// The buffer line length must have been programmed (it carries a fixed
/// increment of three, so a programmed value is at least three); the other
/// layer and the global timing registers are untouched.
pub fn set_layer_position(ltdc: &mut LtdcRegs, l: Layer, xpos: u16, ypos: u16)
    requires
        reg::get_field(spec_sel_layer(*old(ltdc), l).cfblr, 0, 11) >= 3,
    ensures
        *final(ltdc) == (match l {
            Layer::First => LtdcRegs {
                layer1: spec_position(old(ltdc).layer1, old(ltdc).bpcr, xpos, ypos),
                ..*old(ltdc)
            },
            Layer::Second => LtdcRegs {
                layer2: spec_position(old(ltdc).layer2, old(ltdc).bpcr, xpos, ypos),
                ..*old(ltdc)
            },
        }),
{
    proof {
        reg::lemma_get_field_le(ltdc.bpcr, 16, 16);
        reg::lemma_get_field_le(ltdc.bpcr, 0, 16);
        reg::lemma_get_field_le(spec_sel_layer(*ltdc, l).cfblr, 0, 11);
        reg::lemma_get_field_le(spec_sel_layer(*ltdc, l).cfblnr, 0, 11);
        reg::lemma_mask_values();
    }
    let bp_h: u32 = reg::read_field(ltdc.bpcr, 16, 16);
    let bp_v: u32 = reg::read_field(ltdc.bpcr, 0, 16);
    let lr: &mut LtdcLayerRegs = match l {
        Layer::First => &mut ltdc.layer1,
        Layer::Second => &mut ltdc.layer2,
    };
    // Clear the start and stop fields before the rewrite, as the hardware
    // sequence does; the full write below determines the final value.
    reg::clear_mask(&mut lr.whpcr, 0xFFFF0FFF);
    reg::clear_mask(&mut lr.wvpcr, 0xFFFF0FFF);
    let hstart: u32 = bp_h + 1 + (xpos as u32);
    let vstart: u32 = bp_v + 1 + (ypos as u32);
    let bpp: u32 = match lr.pfcr {
        0 => 4,
        1 => 3,
        2..=4 => 2,
        7 => 2,
        _ => 1,
    };
    let line_len: u32 = reg::read_field(lr.cfblr, 0, 11);
    let hstop: u32 = (line_len - 3) / bpp + hstart - 1;
    let lines: u32 = reg::read_field(lr.cfblnr, 0, 11);
    let vstop: u32 = lines + vstart - 1;
    lr.whpcr = hstart | (hstop << 16);
    lr.wvpcr = vstart | (vstop << 16);
}

/// Resize one layer's window; reserved surface, performs no register
/// access.
pub fn set_layer_size(ln: u8, xsize: u16, ysize: u16) {
}

/// Commit pending layer reconfiguration by raising the chosen shadow-reload
/// bit: an immediate reload takes effect at once, a vertical-blanking
/// reload at the next blanking period.  Nothing else is touched.
pub fn reload_configuration(ltdc: &mut LtdcRegs, rm: LayerReloadMethod)
    ensures
        *final(ltdc) == (LtdcRegs {
            srcr: reg::with_bit(
                old(ltdc).srcr,
                (match rm {
                    LayerReloadMethod::ImReload => 0u32,
                    LayerReloadMethod::VbReload => 1u32,
                }),
                true,
            ),
            ..*old(ltdc)
        }),
{
    match rm {
        LayerReloadMethod::ImReload => reg::modify_bit(&mut ltdc.srcr, 0, true),
        LayerReloadMethod::VbReload => reg::modify_bit(&mut ltdc.srcr, 1, true),
    }
}

} // verus!
