//! A register-accurate model of a small STM32F1-class microcontroller and the
//! serial console firmware that drives it.
//!
//! The hardware's memory-mapped register blocks are modeled as explicit data:
//! every driver operation states, bit for bit, which register words it changes
//! and how. Busy-wait polling is kept, against a modeled device that has
//! already raised the status flag being waited on (an ideal, responsive
//! peripheral); on silicon the same loops would spin until the flag appears.

pub mod board;
pub mod cmd;
pub mod conf;
pub mod gpio;
pub mod i2c;
pub mod mcp23s08;
pub mod mmio;
pub mod rcc;
pub mod spi;
pub mod text;
pub mod timer;
pub mod usart;
