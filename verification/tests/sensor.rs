//! Gyroscope driver: bus framing, the identity check against a simulated
//! responder, and the SPI builder.

use f429_bsp::clocks::SyscfgRegs;
use f429_bsp::gpio::GpioPort;
use f429_bsp::l3gd20::{self, L3GD20Error, Register, L3GD20, WHO_AM_I_VALUE};
use f429_bsp::rcc::{self, RccRegs};
use f429_bsp::spi::{
    self, BaudRateDivider, ClkPhaCfg, ClkPolCfg, DataFrameFormat, SpiBuilder, SpiInstance, SpiRegs,
};

#[test]
fn register_addresses() {
    assert_eq!(Register::WhoAmI.addr(), 0x0F);
    assert_eq!(Register::CtrlReg1.addr(), 0x20);
    assert_eq!(Register::Reference.addr(), 0x25);
    assert_eq!(Register::OutTemp.addr(), 0x26);
    assert_eq!(Register::OutZH.addr(), 0x2D);
    assert_eq!(Register::Int1Duration.addr(), 0x37);
}

#[test]
fn framing_bytes() {
    // Write framing clears the top two bits; read framing sets the top bit
    // and forces the next bit low.
    assert_eq!(l3gd20::write_cmd(Register::CtrlReg1), 0x20);
    assert_eq!(l3gd20::write_cmd(Register::Int1Duration), 0x37);
    assert_eq!(l3gd20::read_cmd(Register::WhoAmI), 0x8F);
    assert_eq!(l3gd20::read_cmd(Register::CtrlReg4), 0xA3);
}

#[test]
fn write_framing_clears_top_bits() {
    // A write sends the address with the top two bits clear, then the data
    // byte, inside one chip-select pulse.
    let dev = L3GD20::new();
    let mut spi = SpiRegs::new();
    let mut pc = GpioPort::new();
    dev.write_reg(&mut spi, &mut pc, Register::CtrlReg1, 0x55);
    assert_eq!(spi.tx, vec![0x20, 0x55]);
    assert_eq!(pc.odr & 0b10, 0);
}

#[test]
fn read_framing_sets_read_bit_and_collects_second_byte() {
    let dev = L3GD20::new();
    let mut spi = SpiRegs::new();
    spi.rx = vec![0xAA, 0xD4];
    let mut pc = GpioPort::new();
    let byte = dev.read_reg(&mut spi, &mut pc, Register::WhoAmI);
    assert_eq!(byte, 0xD4);
    // 0x0F with the top bit set and the next bit forced low.
    assert_eq!(spi.tx, vec![0x8F, 0x00]);
    assert_eq!(spi.rx.len(), 0);
}

#[test]
fn identity_check_accepts_the_documented_byte() {
    let dev = L3GD20::new();
    let mut spi = SpiRegs::new();
    // The simulated responder answers the identity byte on the second
    // transfer of the exchange.
    spi.rx = vec![0x00, WHO_AM_I_VALUE as u16];
    let mut pc = GpioPort::new();
    assert_eq!(dev.check_connection(&mut spi, &mut pc), Ok(()));
}

#[test]
fn identity_check_rejects_any_other_byte() {
    let dev = L3GD20::new();
    for wrong in [0x0000u16, 0xD3, 0xD5, 0xFF] {
        let mut spi = SpiRegs::new();
        spi.rx = vec![0x00, wrong];
        let mut pc = GpioPort::new();
        assert_eq!(
            dev.check_connection(&mut spi, &mut pc),
            Err(L3GD20Error::IdCannotBeRead)
        );
    }
}

#[test]
fn sensor_bus_bring_up() {
    let dev = L3GD20::new();
    let mut r = RccRegs::new();
    let mut pc = GpioPort::new();
    let mut pf = GpioPort::new();
    let mut spi = SpiRegs::new();
    let mut syscfg = SyscfgRegs { exticr1: 0xFFFF_FFFF };
    assert_eq!(
        dev.init(&mut r, &mut pc, &mut pf, &mut spi, &mut syscfg),
        Ok(())
    );
    assert_eq!(
        r.ahb1enr,
        rcc::AHB1_GPIOF | rcc::AHB1_GPIOA | rcc::AHB1_GPIOC
    );
    assert_eq!(r.apb2enr, rcc::APB2_SPI5);
    // Chip select: plain output on pin 1.
    assert_eq!(pc.moder, 0b01 << 2);
    // Bus pins 7, 8 and 9 on the SPI function at high speed.
    assert_eq!(pf.moder, (0b10 << 14) | (0b10 << 16) | (0b10 << 18));
    assert_eq!(pf.afrl, 5 << 28);
    assert_eq!(pf.afrh, 5 | (5 << 4));
    // Control word: divider eight, master, clock idle high, second edge,
    // peripheral enabled; slave-select output on.
    assert_eq!(spi.cr1, (0b010 << 3) | (1 << 2) | (1 << 1) | 1 | (1 << 6));
    assert_eq!(spi.cr2, 1 << 2);
    // Interrupt line 1 routed to port A.
    assert_eq!(syscfg.exticr1, 0xFFFF_FF0F);
}

#[test]
fn transfer_queues() {
    let mut spi = SpiRegs::new();
    spi.rx = vec![9, 8, 7];
    spi::send(&mut spi, 1);
    let a = spi::recv(&mut spi);
    spi::send(&mut spi, 2);
    let b = spi::recv(&mut spi);
    assert_eq!((a, b), (9, 8));
    assert_eq!(spi.tx, vec![1, 2]);
    assert_eq!(spi.rx, vec![7]);
}

#[test]
fn builder_accumulates_and_encodes() {
    let b = SpiBuilder::new();
    assert_eq!(b.cr1_word(), (2 << 3) | (1 << 2) | (1 << 1));
    let b = SpiBuilder::new()
        .bidimode(true)
        .bidioe(true)
        .crc(true)
        .data_frame_length(DataFrameFormat::Frame16Bits)
        .rx_only(true)
        .sw_slave_mgmt(true)
        .lsb_first(true)
        .baudrate_freq_div(BaudRateDivider::DivBy256)
        .clock_polarity(ClkPolCfg::CpolHigh)
        .clock_edge(ClkPhaCfg::CphaSecond)
        .master(true)
        .spi_periph(SpiInstance::Spi5);
    assert_eq!(
        b.cr1_word(),
        0x8000 | 0x4000 | 0x2000 | 0x0800 | 0x0400 | 0x0200 | 0x0080 | (7 << 3) | 0x4 | 0x2 | 0x1
    );
    let drv = b.configure();
    let mut regs = SpiRegs::new();
    drv.reconfigure(&mut regs);
    assert_eq!(regs.cr1, drv.spi_cfg.cr1_word());
}

#[test]
fn driver_register_exchange() {
    // A read sends the read-framed address then a dummy frame and collects
    // the second answer; a write sends the write-framed address then every
    // data frame in order.
    let drv = SpiBuilder::new().spi_periph(SpiInstance::Spi4).configure();
    let mut regs = SpiRegs::new();
    regs.rx = vec![0xFFFF, 0x1234];
    let mut word: u16 = 0;
    assert_eq!(drv.read(&mut regs, 0x20, &mut word), Ok(()));
    assert_eq!(word, 0x1234);
    assert_eq!(regs.tx, vec![0xA0, 0x0000]);
    assert_eq!(regs.rx.len(), 0);
    assert_eq!(drv.write(&mut regs, 0x21, &[0x0102, 0x0304]), Ok(()));
    assert_eq!(regs.tx, vec![0xA0, 0x0000, 0x21, 0x0102, 0x0304]);
}

#[test]
fn low_polarity_first_edge_encode_as_zero_bits() {
    let b = SpiBuilder::new()
        .clock_polarity(ClkPolCfg::CpolLow)
        .clock_edge(ClkPhaCfg::CphaFirst)
        .master(false)
        .baudrate_freq_div(BaudRateDivider::DivBy2);
    assert_eq!(b.cr1_word(), 0);
}
