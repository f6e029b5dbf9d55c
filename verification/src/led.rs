//! Status LEDs on the board's port G, pins 13 and 14.
//!
//! Raising and lowering go through the port's set-or-reset request, so no
//! read-modify-write of the output data register is needed; toggling reads
//! the pin back first.

use vstd::prelude::*;

use crate::gpio;
use crate::gpio::GpioPort;
use crate::rcc;
use crate::rcc::RccRegs;
use crate::reg;

verus! {

/// The two board LEDs.
#[derive(Clone, Copy, PartialEq, Eq, Structural, Debug)]
pub enum LedName {
    Led3,
    Led4,
}

/// Handle of one board LED.
#[derive(Clone, Copy, PartialEq, Eq, Structural, Debug)]
pub struct Led {
    /// Which of the two LEDs this handle drives.
    pub n: LedName,
}

impl Led {
    /// The port pin the LED is wired to.
    pub open spec fn spec_pin(self) -> u8 {
        match self.n {
            LedName::Led3 => 13,
            LedName::Led4 => 14,
        }
    }

    /// The port pin the LED is wired to.
    pub fn pin(self) -> (p: u8)
        ensures
            p == self.spec_pin(),
    {
        match self.n {
            LedName::Led3 => 13,
            LedName::Led4 => 14,
        }
    }

    /// A handle for the named LED.
    pub fn new(n: LedName) -> (l: Led)
        ensures
            l.n == n,
    {
        Led { n }
    }

    /// Clock the LED's port and put its pin in output mode; the pin's other
    /// fields and every other pin are untouched.
    pub fn init(&self, rcc: &mut RccRegs, pg: &mut GpioPort)
        ensures
            *final(rcc) == (RccRegs { ahb1enr: old(rcc).ahb1enr | rcc::AHB1_GPIOG, ..*old(
                rcc,
            ) }),
            *final(pg) == (GpioPort {
                moder: reg::with_field(old(pg).moder, (self.spec_pin() * 2) as u32, 2, 0b01),
                ..*old(pg)
            }),
    {
        rcc::set_ahb1_periph_clk(rcc, rcc::AHB1_GPIOG, true);
        let pin = self.pin();
        reg::modify_field(&mut pg.moder, (pin as u32) * 2, 2, 0b01);
    }

    /// Raise the LED's pin.
    pub fn on(&self, pg: &mut GpioPort)
        ensures
            *final(pg) == gpio::spec_write(*old(pg), self.spec_pin(), true),
    {
        let _ = gpio::write(pg, self.pin(), true);
    }

    /// Lower the LED's pin.
    pub fn off(&self, pg: &mut GpioPort)
        ensures
            *final(pg) == gpio::spec_write(*old(pg), self.spec_pin(), false),
    {
        let _ = gpio::write(pg, self.pin(), false);
    }

    /// Read the pin back and drive it to the opposite level.
    pub fn toggle(&self, pg: &mut GpioPort)
        ensures
            *final(pg) == gpio::spec_write(
                *old(pg),
                self.spec_pin(),
                !gpio::spec_read(*old(pg), self.spec_pin()),
            ),
    {
        let lit = reg::read_bit(pg.idr, self.pin() as u32);
        if lit {
            let _ = gpio::write(pg, self.pin(), false);
        } else {
            let _ = gpio::write(pg, self.pin(), true);
        }
    }
}

} // verus!
