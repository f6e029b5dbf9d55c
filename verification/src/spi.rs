//! SPI peripheral driver: a builder accumulating the control-register
//! configuration, and a model of the peripheral's data path.
//!
//! The data path of [`SpiRegs`] records the frames clocked out (`tx`, oldest
//! first) and holds the frames the attached device will answer with (`rx`,
//! oldest first), each as wide as the 16-bit data register; an 8-bit
//! exchange uses the low byte.  A blocking polled transfer appends to `tx`
//! and consumes from the front of `rx`; the transmit-empty and
//! receive-not-empty waits of the hardware collapse to the model's queue
//! operations.

use vstd::prelude::*;

verus! {

/// Data frame width of one transfer.
#[derive(Clone, Copy, PartialEq, Eq, Structural, Debug)]
pub enum DataFrameFormat {
    Frame8Bits,
    Frame16Bits,
}

/// Clock phase: sample on the first or the second edge.
#[derive(Clone, Copy, PartialEq, Eq, Structural, Debug)]
pub enum ClkPhaCfg {
    CphaFirst,
    CphaSecond,
}

/// Clock polarity: idle low or idle high.
#[derive(Clone, Copy, PartialEq, Eq, Structural, Debug)]
pub enum ClkPolCfg {
    CpolLow,
    CpolHigh,
}

/// Baud-rate divider: a power-of-two divisor of the peripheral clock,
/// from 2 up to 256.
#[derive(Clone, Copy, PartialEq, Eq, Structural, Debug)]
pub enum BaudRateDivider {
    DivBy2,
    DivBy4,
    DivBy8,
    DivBy16,
    DivBy32,
    DivBy64,
    DivBy128,
    DivBy256,
}

impl BaudRateDivider {
    /// Field encoding of the divider.
    pub open spec fn spec_bits(self) -> u8 {
        match self {
            BaudRateDivider::DivBy2 => 0,
            BaudRateDivider::DivBy4 => 1,
            BaudRateDivider::DivBy8 => 2,
            BaudRateDivider::DivBy16 => 3,
            BaudRateDivider::DivBy32 => 4,
            BaudRateDivider::DivBy64 => 5,
            BaudRateDivider::DivBy128 => 6,
            BaudRateDivider::DivBy256 => 7,
        }
    }

    /// Field encoding of the divider.
    pub fn bits(self) -> (b: u8)
        ensures
            b == self.spec_bits(),
    {
        match self {
            BaudRateDivider::DivBy2 => 0,
            BaudRateDivider::DivBy4 => 1,
            BaudRateDivider::DivBy8 => 2,
            BaudRateDivider::DivBy16 => 3,
            BaudRateDivider::DivBy32 => 4,
            BaudRateDivider::DivBy64 => 5,
            BaudRateDivider::DivBy128 => 6,
            BaudRateDivider::DivBy256 => 7,
        }
    }
}

/// The physical SPI peripheral a driver is bound to.
#[derive(Clone, Copy, PartialEq, Eq, Structural, Debug)]
pub enum SpiInstance {
    Spi1,
    Spi2,
    Spi3,
    Spi4,
    Spi5,
    Spi6,
}

/// Register block and data path of one SPI peripheral.
pub struct SpiRegs {
    /// First control register.
    pub cr1: u32,
    /// Second control register.
    pub cr2: u32,
    /// Frames clocked out through the data register, oldest first.
    pub tx: Vec<u16>,
    /// Frames the attached device will answer with, oldest first; each
    /// transfer consumes one.
    pub rx: Vec<u16>,
}

impl SpiRegs {
    /// A peripheral with cleared control registers and an empty data path.
    pub fn new() -> (s: SpiRegs)
        ensures
            s.cr1 == 0,
            s.cr2 == 0,
            s.tx@ == Seq::<u16>::empty(),
            s.rx@ == Seq::<u16>::empty(),
    {
        SpiRegs { cr1: 0, cr2: 0, tx: Vec::new(), rx: Vec::new() }
    }
}

/// Clock one frame out through the data register after the transmit-empty
/// wait; the answering frame is left in the receive queue.
pub fn send(spi: &mut SpiRegs, frame: u16)
    ensures
        final(spi).tx@ == old(spi).tx@.push(frame),
        final(spi).rx@ == old(spi).rx@,
        final(spi).cr1 == old(spi).cr1,
        final(spi).cr2 == old(spi).cr2,
{
    spi.tx.push(frame);
}

/// Collect the oldest answered frame after the receive-not-empty wait.
pub fn recv(spi: &mut SpiRegs) -> (b: u16)
    requires
        old(spi).rx@.len() > 0,
    ensures
        b == old(spi).rx@[0],
        final(spi).rx@ == old(spi).rx@.drop_first(),
        final(spi).tx@ == old(spi).tx@,
        final(spi).cr1 == old(spi).cr1,
        final(spi).cr2 == old(spi).cr2,
{
    let b = spi.rx.remove(0);
    proof {
        assert(final(spi).rx@ =~= old(spi).rx@.drop_first());
    }
    b
}

/// Accumulated SPI configuration, one builder call per hardware setting.
#[derive(Clone, Copy, PartialEq, Eq, Structural, Debug)]
pub struct SpiBuilder {
    /// Bidirectional-line mode.
    pub bidimode_en: bool,
    /// Output enable in bidirectional mode.
    pub bidioe_en: bool,
    /// Hardware CRC calculation.
    pub crc_en: bool,
    /// CRC phase for the next transfer.
    pub crc_next: bool,
    /// Data frame width.
    pub data_frame: DataFrameFormat,
    /// Receive-only mode.
    pub rx_only: bool,
    /// Software slave-select management.
    pub sw_slave_mgmt: bool,
    /// Least-significant bit first.
    pub lsb_first: bool,
    /// Baud-rate divider field value.
    pub baudrate_freq_div: u8,
    /// Clock polarity.
    pub clock_polarity: ClkPolCfg,
    /// Clock phase.
    pub clock_edge: ClkPhaCfg,
    /// Master role.
    pub master: bool,
    /// The peripheral the configuration is meant for.
    pub spi_periph: Option<SpiInstance>,
}

/// The first control register word encoding a configuration.
pub open spec fn spec_cr1_word(c: SpiBuilder) -> u32 {
    (if c.bidimode_en {
        0x8000u32
    } else {
        0u32
    }) | (if c.bidioe_en {
        0x4000u32
    } else {
        0u32
    }) | (if c.crc_en {
        0x2000u32
    } else {
        0u32
    }) | (if c.crc_next {
        0x1000u32
    } else {
        0u32
    }) | (if c.data_frame == DataFrameFormat::Frame16Bits {
        0x0800u32
    } else {
        0u32
    }) | (if c.rx_only {
        0x0400u32
    } else {
        0u32
    }) | (if c.sw_slave_mgmt {
        0x0200u32
    } else {
        0u32
    }) | (if c.lsb_first {
        0x0080u32
    } else {
        0u32
    }) | (((c.baudrate_freq_div & 7) as u32) << 3) | (if c.master {
        0x0004u32
    } else {
        0u32
    }) | (if c.clock_polarity == ClkPolCfg::CpolHigh {
        0x0002u32
    } else {
        0u32
    }) | (if c.clock_edge == ClkPhaCfg::CphaSecond {
        0x0001u32
    } else {
        0u32
    })
}

impl SpiBuilder {
    /// A builder holding the reset configuration: full duplex, no CRC, 8-bit
    /// frames, most-significant bit first, divider field 2, clock idle high
    /// sampling on the first edge, master role, bound to no peripheral.
    pub fn new() -> (b: SpiBuilder)
        ensures
            b == (SpiBuilder {
                bidimode_en: false,
                bidioe_en: false,
                crc_en: false,
                crc_next: false,
                data_frame: DataFrameFormat::Frame8Bits,
                rx_only: false,
                sw_slave_mgmt: false,
                lsb_first: false,
                baudrate_freq_div: 2,
                clock_polarity: ClkPolCfg::CpolHigh,
                clock_edge: ClkPhaCfg::CphaFirst,
                master: true,
                spi_periph: None::<SpiInstance>,
            }),
    {
        SpiBuilder {
            bidimode_en: false,
            bidioe_en: false,
            crc_en: false,
            crc_next: false,
            data_frame: DataFrameFormat::Frame8Bits,
            rx_only: false,
            sw_slave_mgmt: false,
            lsb_first: false,
            baudrate_freq_div: 2,
            clock_polarity: ClkPolCfg::CpolHigh,
            clock_edge: ClkPhaCfg::CphaFirst,
            master: true,
            spi_periph: None,
        }
    }

    /// Select bidirectional-line mode.
    pub fn bidimode(self, en: bool) -> (b: SpiBuilder)
        ensures
            b == (SpiBuilder { bidimode_en: en, ..self }),
    {
        SpiBuilder { bidimode_en: en, ..self }
    }

    /// Select the output enable in bidirectional mode.
    pub fn bidioe(self, en: bool) -> (b: SpiBuilder)
        ensures
            b == (SpiBuilder { bidioe_en: en, ..self }),
    {
        SpiBuilder { bidioe_en: en, ..self }
    }

    /// Enable hardware CRC calculation.
    pub fn crc(self, en: bool) -> (b: SpiBuilder)
        ensures
            b == (SpiBuilder { crc_en: en, ..self }),
    {
        SpiBuilder { crc_en: en, ..self }
    }

    /// Select the data frame width.
    pub fn data_frame_length(self, dff: DataFrameFormat) -> (b: SpiBuilder)
        ensures
            b == (SpiBuilder { data_frame: dff, ..self }),
    {
        SpiBuilder { data_frame: dff, ..self }
    }

    /// Select receive-only mode.
    pub fn rx_only(self, en: bool) -> (b: SpiBuilder)
        ensures
            b == (SpiBuilder { rx_only: en, ..self }),
    {
        SpiBuilder { rx_only: en, ..self }
    }

    /// Select software slave-select management.
    pub fn sw_slave_mgmt(self, en: bool) -> (b: SpiBuilder)
        ensures
            b == (SpiBuilder { sw_slave_mgmt: en, ..self }),
    {
        SpiBuilder { sw_slave_mgmt: en, ..self }
    }

    /// Send the least-significant bit first.
    pub fn lsb_first(self, en: bool) -> (b: SpiBuilder)
        ensures
            b == (SpiBuilder { lsb_first: en, ..self }),
    {
        SpiBuilder { lsb_first: en, ..self }
    }

    /// Select the baud-rate divider.
    pub fn baudrate_freq_div(self, div: BaudRateDivider) -> (b: SpiBuilder)
        ensures
            b == (SpiBuilder { baudrate_freq_div: div.spec_bits(), ..self }),
    {
        let bits = div.bits();
        SpiBuilder { baudrate_freq_div: bits, ..self }
    }

    /// Select the clock polarity.
    pub fn clock_polarity(self, cpol: ClkPolCfg) -> (b: SpiBuilder)
        ensures
            b == (SpiBuilder { clock_polarity: cpol, ..self }),
    {
        SpiBuilder { clock_polarity: cpol, ..self }
    }

    /// Select the clock phase.
    pub fn clock_edge(self, cpha: ClkPhaCfg) -> (b: SpiBuilder)
        ensures
            b == (SpiBuilder { clock_edge: cpha, ..self }),
    {
        SpiBuilder { clock_edge: cpha, ..self }
    }

    /// Select the master or slave role.
    pub fn master(self, en: bool) -> (b: SpiBuilder)
        ensures
            b == (SpiBuilder { master: en, ..self }),
    {
        SpiBuilder { master: en, ..self }
    }

    /// Bind the configuration to one physical peripheral.
    pub fn spi_periph(self, sp: SpiInstance) -> (b: SpiBuilder)
        ensures
            b == (SpiBuilder { spi_periph: Some(sp), ..self }),
    {
        SpiBuilder { spi_periph: Some(sp), ..self }
    }

    /// The first control register word this configuration encodes.
    pub fn cr1_word(&self) -> (w: u32)
        ensures
            w == spec_cr1_word(*self),
    {
        (if self.bidimode_en {
            0x8000u32
        } else {
            0u32
        }) | (if self.bidioe_en {
            0x4000u32
        } else {
            0u32
        }) | (if self.crc_en {
            0x2000u32
        } else {
            0u32
        }) | (if self.crc_next {
            0x1000u32
        } else {
            0u32
        }) | (if self.data_frame == DataFrameFormat::Frame16Bits {
            0x0800u32
        } else {
            0u32
        }) | (if self.rx_only {
            0x0400u32
        } else {
            0u32
        }) | (if self.sw_slave_mgmt {
            0x0200u32
        } else {
            0u32
        }) | (if self.lsb_first {
            0x0080u32
        } else {
            0u32
        }) | (((self.baudrate_freq_div & 7) as u32) << 3) | (if self.master {
            0x0004u32
        } else {
            0u32
        }) | (if self.clock_polarity == ClkPolCfg::CpolHigh {
            0x0002u32
        } else {
            0u32
        }) | (if self.clock_edge == ClkPhaCfg::CphaSecond {
            0x0001u32
        } else {
            0u32
        })
    }

    /// Freeze the accumulated configuration into an immutable driver.
    pub fn configure(self) -> (s: Spi)
        ensures
            s.spi_cfg == self,
    {
        Spi { spi_cfg: self }
    }
}

/// An immutable SPI driver: one peripheral, one frozen configuration.
pub struct Spi {
    /// The configuration the driver was built with.
    pub spi_cfg: SpiBuilder,
}

/// The frame carrying a register-read request: the address with the top
/// bit set and the next bit forced low, staying inside the peripheral's
/// addressable register range.
pub open spec fn spec_read_frame(reg: u8) -> u16 {
    ((reg | 0x80) & 0xBF) as u16
}

/// The frame carrying a register-write request: the address with the top
/// two bits clear.
pub open spec fn spec_write_frame(reg: u8) -> u16 {
    (reg & 0x3F) as u16
}

impl Spi {
    /// Register-style read of one peripheral register: transmit the
    /// read-framed address and discard the frame answered with it, then
    /// transmit a dummy frame and collect the response into `buf`.
    ///
    /// The device driver that owns the transaction drives its dedicated
    /// chip-select line around the call.
    pub fn read(&self, regs: &mut SpiRegs, reg: u8, buf: &mut u16) -> (r: Result<(), ()>)
        requires
            old(regs).rx@.len() >= 2,
        ensures
            r == Ok::<(), ()>(()),
            *final(buf) == old(regs).rx@[1],
            final(regs).tx@ == old(regs).tx@.push(spec_read_frame(reg)).push(0),
            final(regs).rx@ == old(regs).rx@.skip(2),
            final(regs).cr1 == old(regs).cr1,
            final(regs).cr2 == old(regs).cr2,
    {
        send(regs, ((reg | 0x80) & 0xBF) as u16);
        let _ = recv(regs);
        send(regs, 0);
        let frame = recv(regs);
        *buf = frame;
        proof {
            assert(final(regs).rx@ =~= old(regs).rx@.skip(2));
        }
        Ok(())
    }

    /// Register-style write to one peripheral register: transmit the
    /// write-framed address, then every data frame in order.
    ///
    /// The device driver that owns the transaction drives its dedicated
    /// chip-select line around the call.
    pub fn write(&self, regs: &mut SpiRegs, reg: u8, data: &[u16]) -> (r: Result<(), ()>)
        ensures
            r == Ok::<(), ()>(()),
            final(regs).tx@ == old(regs).tx@.push(spec_write_frame(reg)) + data@,
            final(regs).rx@ == old(regs).rx@,
            final(regs).cr1 == old(regs).cr1,
            final(regs).cr2 == old(regs).cr2,
    {
        send(regs, (reg & 0x3F) as u16);
        let mut i: usize = 0;
        while i < data.len()
            invariant
                i <= data@.len(),
                regs.tx@ == old(regs).tx@.push(spec_write_frame(reg)) + data@.take(i as int),
                regs.rx@ == old(regs).rx@,
                regs.cr1 == old(regs).cr1,
                regs.cr2 == old(regs).cr2,
            decreases data@.len() - i,
        {
            let frame = data[i];
            send(regs, frame);
            proof {
                assert(regs.tx@ =~= old(regs).tx@.push(spec_write_frame(reg)) + data@.take(
                    i + 1,
                ));
            }
            i = i + 1;
        }
        proof {
            assert(data@.take(data@.len() as int) =~= data@);
        }
        Ok(())
    }

    /// Re-apply the last-built configuration to the peripheral, restoring it
    /// after the bus was time-shared with a device that needs other settings.
    pub fn reconfigure(&self, regs: &mut SpiRegs)
        ensures
            final(regs).cr1 == spec_cr1_word(self.spi_cfg),
            final(regs).cr2 == old(regs).cr2,
            final(regs).tx@ == old(regs).tx@,
            final(regs).rx@ == old(regs).rx@,
    {
        let w = self.spi_cfg.cr1_word();
        regs.cr1 = w;
    }
}

} // verus!
