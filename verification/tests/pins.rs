//! Pin-configuration service: field placement, bounds checks, round trips.

use f429_bsp::gpio::{self, AltFn, GpioError, GpioPort, Mode, OutSpeed, OutType, PullType};

fn full_port() -> GpioPort {
    GpioPort {
        moder: 0xFFFF_FFFF,
        otyper: 0xFFFF_FFFF,
        ospeedr: 0xFFFF_FFFF,
        pupdr: 0xFFFF_FFFF,
        idr: 0xFFFF_FFFF,
        odr: 0xFFFF_FFFF,
        afrl: 0xFFFF_FFFF,
        afrh: 0xFFFF_FFFF,
    }
}

#[test]
fn whole_register_read_modify_write() {
    let mut r: u32 = 0xFF00;
    f429_bsp::reg::modify(&mut r, |v| v | 1);
    assert_eq!(r, 0xFF01);
    f429_bsp::reg::modify(&mut r, |v| v & !0xFF00);
    assert_eq!(r, 1);
}

#[test]
fn field_primitives() {
    let mut r: u32 = 0xFFFF_FFFF;
    f429_bsp::reg::modify_field(&mut r, 8, 4, 0b0101);
    assert_eq!(r, 0xFFFF_F5FF);
    assert_eq!(f429_bsp::reg::read_field(r, 8, 4), 0b0101);
    f429_bsp::reg::modify_bit(&mut r, 0, false);
    assert_eq!(r, 0xFFFF_F5FE);
    assert!(!f429_bsp::reg::read_bit(r, 0));
    f429_bsp::reg::set_mask(&mut r, 0x1);
    f429_bsp::reg::clear_mask(&mut r, 0xF000_0000);
    assert_eq!(r, 0x0FFF_F5FF);
}

#[test]
fn configure_writes_exact_fields_from_zero() {
    let mut p = GpioPort::new();
    let r = gpio::configure(
        &mut p,
        3,
        Mode::Output,
        OutType::OpenDrain,
        OutSpeed::VeryHigh,
        PullType::PullDown,
    );
    assert_eq!(r, Ok(()));
    assert_eq!(p.moder, 0b01 << 6);
    assert_eq!(p.otyper, 1 << 3);
    assert_eq!(p.ospeedr, 0b11 << 6);
    assert_eq!(p.pupdr, 0b10 << 6);
    assert_eq!(p.afrl, 0);
    assert_eq!(p.afrh, 0);
}

#[test]
fn configure_preserves_unrelated_bits() {
    // The masked XOR of before and after is zero outside the touched
    // fields, and the touched fields hold exactly the encoded values.
    let before = full_port();
    let mut p = full_port();
    let r = gpio::configure(
        &mut p,
        5,
        Mode::Input,
        OutType::PushPull,
        OutSpeed::Low,
        PullType::NoPull,
    );
    assert_eq!(r, Ok(()));
    let mask2 = 0b11u32 << 10;
    let mask1 = 1u32 << 5;
    assert_eq!((p.moder ^ before.moder) & !mask2, 0);
    assert_eq!(p.moder & mask2, 0);
    assert_eq!((p.otyper ^ before.otyper) & !mask1, 0);
    assert_eq!(p.otyper & mask1, 0);
    assert_eq!((p.ospeedr ^ before.ospeedr) & !mask2, 0);
    assert_eq!(p.ospeedr & mask2, 0);
    assert_eq!((p.pupdr ^ before.pupdr) & !mask2, 0);
    assert_eq!(p.pupdr & mask2, 0);
    assert_eq!(p.idr, before.idr);
    assert_eq!(p.odr, before.odr);
    assert_eq!(p.afrl, before.afrl);
    assert_eq!(p.afrh, before.afrh);
}

#[test]
fn configure_all_pins_all_modes() {
    // Every pin index and every mode/type/speed/pull combination leaves the
    // untouched positions of each register alone.
    let modes = [Mode::Input, Mode::Output, Mode::AltFn, Mode::Analog];
    let types = [OutType::PushPull, OutType::OpenDrain];
    let speeds = [
        OutSpeed::Low,
        OutSpeed::Medium,
        OutSpeed::High,
        OutSpeed::VeryHigh,
    ];
    let pulls = [PullType::NoPull, PullType::PullUp, PullType::PullDown];
    for pin in 0u8..16 {
        for m in modes {
            for t in types {
                for s in speeds {
                    for pl in pulls {
                        let before = full_port();
                        let mut p = full_port();
                        assert_eq!(gpio::configure(&mut p, pin, m, t, s, pl), Ok(()));
                        let mask2 = 0b11u32 << (pin * 2);
                        let mask1 = 1u32 << pin;
                        assert_eq!((p.moder ^ before.moder) & !mask2, 0);
                        assert_eq!((p.otyper ^ before.otyper) & !mask1, 0);
                        assert_eq!((p.ospeedr ^ before.ospeedr) & !mask2, 0);
                        assert_eq!((p.pupdr ^ before.pupdr) & !mask2, 0);
                    }
                }
            }
        }
    }
}

#[test]
fn pin_out_of_range_is_rejected_without_mutation() {
    for pin in 16u8..=255 {
        let mut p = full_port();
        let before = p;
        assert_eq!(
            gpio::configure(
                &mut p,
                pin,
                Mode::Output,
                OutType::PushPull,
                OutSpeed::Low,
                PullType::NoPull
            ),
            Err(GpioError::InvalidPin)
        );
        assert_eq!(p, before);
        assert_eq!(
            gpio::set_alt_fn(&mut p, pin, AltFn::Lcd),
            Err(GpioError::InvalidPin)
        );
        assert_eq!(p, before);
        assert_eq!(gpio::read(&p, pin), Err(GpioError::InvalidPin));
        assert_eq!(gpio::write(&mut p, pin, true), Err(GpioError::InvalidPin));
        assert_eq!(p, before);
    }
}

#[test]
fn alt_fn_low_and_high_half() {
    let mut p = GpioPort::new();
    assert_eq!(gpio::set_alt_fn(&mut p, 5, AltFn::Spi123456), Ok(()));
    assert_eq!(p.afrl, 5 << 20);
    assert_eq!(p.afrh, 0);
    assert_eq!(gpio::set_alt_fn(&mut p, 9, AltFn::FmcSdioOtg2Fs), Ok(()));
    assert_eq!(p.afrh, 12 << 4);
    assert_eq!(p.afrl, 5 << 20);
}

#[test]
fn read_is_a_bit_test() {
    let mut p = GpioPort::new();
    p.idr = 1 << 7;
    assert_eq!(gpio::read(&p, 7), Ok(true));
    assert_eq!(gpio::read(&p, 6), Ok(false));
}

#[test]
fn write_sets_and_clears_one_bit() {
    let mut p = GpioPort::new();
    p.odr = 0xAAAA;
    assert_eq!(gpio::write(&mut p, 0, true), Ok(()));
    assert_eq!(p.odr, 0xAAAB);
    assert_eq!(gpio::write(&mut p, 1, false), Ok(()));
    assert_eq!(p.odr, 0xAAA9);
}

#[test]
fn set_reset_request_words() {
    // A raise request carries the pin's bit in the low half, a lower
    // request the same bit in the high half.
    assert_eq!(gpio::bsrr_value(0, true), 1);
    assert_eq!(gpio::bsrr_value(0, false), 1 << 16);
    assert_eq!(gpio::bsrr_value(13, true), 1 << 13);
    assert_eq!(gpio::bsrr_value(13, false), 1 << 29);
    assert_eq!(gpio::bsrr_value(15, false), 1 << 31);
}

#[test]
fn write_then_read_roundtrip() {
    // The simulated-register loopback: what write drove onto the output
    // register is the level read back through the input register.
    for pin in 0u8..16 {
        for level in [true, false] {
            let mut p = full_port();
            assert_eq!(gpio::write(&mut p, pin, level), Ok(()));
            p.idr = p.odr;
            assert_eq!(gpio::read(&p, pin), Ok(level));
        }
    }
}
