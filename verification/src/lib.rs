//! Board-support layer for an STM32F429-class microcontroller, modelled and
//! verified over plain register values.
//!
//! Every peripheral register block is represented as a struct of `u32`
//! registers.  All configuration logic — bit-field read-modify-write, pin
//! configuration, clock-tree sequencing, SPI framing, external-memory access
//! checking and display-timing programming — runs on these models and is
//! verified.  A thin unverified shell binds the models to the memory-mapped
//! hardware.

pub mod clocks;
pub mod gpio;
pub mod l3gd20;
pub mod lcd;
pub mod led;
pub mod ltdc;
pub mod rcc;
pub mod reg;
pub mod sdram;
pub mod spi;
