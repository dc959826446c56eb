//! One I2C controller in master mode: its register block and the polled
//! start/address/data/stop operations of a 7-bit-address write transaction.
//!
//! Each operation requests a bus condition and busy-waits on the matching
//! status bit; the modeled bus raises the bit as soon as the condition is
//! requested. No arbitration loss or negative acknowledge is modeled: on
//! silicon any such condition simply hangs the polling loop, with no
//! timeout.

use vstd::prelude::*;

use crate::gpio::{mode_bits, set_field2, set_field4, speed_bits, Gpio, PinMode, PinSpeed};
use crate::mmio;

verus! {

/// Base address of I2C1; a controller's identity is its base address.
pub const I2C1_BASE: u32 = 0x4000_5400;

/// Base address of I2C2.
pub const I2C2_BASE: u32 = 0x4000_5800;

/// Peripheral-enable bit of control register 1.
pub const I2C_CR1_PE: u32 = 1 << 0;

/// Start-condition-generated status bit of status register 1.
pub const I2C_SR1_SB: u32 = 1 << 0;

/// Address-sent status bit.
pub const I2C_SR1_ADDR: u32 = 1 << 1;

/// Byte-transfer-finished status bit.
pub const I2C_SR1_BTF: u32 = 1 << 2;

/// Stop-condition-detected status bit.
pub const I2C_SR1_STOPF: u32 = 1 << 4;

/// The register block of one I2C controller.
pub struct I2cRegs {
    /// Control register 1: enables, start and stop generation.
    pub cr1: u32,
    /// Control register 2: input clock frequency.
    pub cr2: u32,
    /// Own-address register 1.
    pub oar1: u32,
    /// Own-address register 2.
    pub oar2: u32,
    /// Data register.
    pub dr: u32,
    /// Status register 1.
    pub sr1: u32,
    /// Status register 2.
    pub sr2: u32,
    /// Clock-control register: the SCL period.
    pub ccr: u32,
    /// Rise-time register.
    pub trise: u32,
}

/// One I2C controller: its identity and registers.
pub struct I2C {
    /// Base address of the register block; the controller's identity.
    pub base: u32,
    /// The controller's registers.
    pub regs: I2cRegs,
}

impl I2C {
    /// A controller in its reset state.
    pub fn new(base: u32) -> (i2c: I2C)
        ensures
            i2c.base == base,
            i2c.regs == (I2cRegs {
                cr1: 0,
                cr2: 0,
                oar1: 0,
                oar2: 0,
                dr: 0,
                sr1: 0,
                sr2: 0,
                ccr: 0,
                trise: 0,
            }),
    {
        I2C {
            base,
            regs: I2cRegs {
                cr1: 0,
                cr2: 0,
                oar1: 0,
                oar2: 0,
                dr: 0,
                sr1: 0,
                sr2: 0,
                ccr: 0,
                trise: 0,
            },
        }
    }

    /// Bring the controller up: mux its clock and data pins of port B to
    /// fast open-drain alternate outputs, program the input clock
    /// frequency, the SCL period and the rise time, then enable the
    /// device. Only I2C1's pin assignment is wired up.
    pub fn initialize(&mut self, gpiob: &mut Gpio)
        requires
            old(self).base == I2C1_BASE,
        ensures
            final(self).base == old(self).base,
            final(self).regs == (I2cRegs {
                cr2: old(self).regs.cr2 | 0b001000,
                ccr: old(self).regs.ccr | 0x28,
                trise: old(self).regs.trise | 0x9,
                cr1: old(self).regs.cr1 | I2C_CR1_PE,
                ..old(self).regs
            }),
            *final(gpiob) == (Gpio {
                crl: set_field2(
                    set_field4(
                        set_field2(
                            set_field4(old(gpiob).crl, 6, mode_bits(PinMode::OutAltDrain)),
                            6,
                            speed_bits(PinSpeed::Max50MHz),
                        ),
                        7,
                        mode_bits(PinMode::OutAltDrain),
                    ),
                    7,
                    speed_bits(PinSpeed::Max50MHz),
                ),
                ..*old(gpiob)
            }),
    {
        // Clock line.
        gpiob.set_pin_mode(6, PinMode::OutAltDrain);
        gpiob.set_pin_speed(6, PinSpeed::Max50MHz);
        // Data line.
        gpiob.set_pin_mode(7, PinMode::OutAltDrain);
        gpiob.set_pin_speed(7, PinSpeed::Max50MHz);

        // Input clock frequency: 8 MHz.
        mmio::set_bits(&mut self.regs.cr2, 0b001000);

        // SCL period.
        mmio::set_bits(&mut self.regs.ccr, 0x28);

        // Maximum rise time.
        mmio::set_bits(&mut self.regs.trise, 0x9);

        // Enable the device.
        mmio::set_bits(&mut self.regs.cr1, I2C_CR1_PE);
    }

    /// Request a start condition and busy-wait until the bus reports it.
    pub fn generate_start(&mut self)
        ensures
            final(self).base == old(self).base,
            final(self).regs == (I2cRegs {
                cr1: old(self).regs.cr1 | (1u32 << 8),
                sr1: old(self).regs.sr1 | I2C_SR1_SB,
                ..old(self).regs
            }),
    {
        mmio::set_bit(&mut self.regs.cr1, 1 << 8);
        let ghost sr0 = self.regs.sr1;
        // The modeled bus raises the start flag at once.
        mmio::set_bit(&mut self.regs.sr1, I2C_SR1_SB);
        proof {
            assert((sr0 | I2C_SR1_SB) & I2C_SR1_SB != 0) by (bit_vector);
        }
        mmio::wait_set(&self.regs.sr1, I2C_SR1_SB);
    }

    /// Request a stop condition and busy-wait until the bus reports it.
    pub fn generate_stop(&mut self)
        ensures
            final(self).base == old(self).base,
            final(self).regs == (I2cRegs {
                cr1: old(self).regs.cr1 | (1u32 << 9),
                sr1: old(self).regs.sr1 | I2C_SR1_STOPF,
                ..old(self).regs
            }),
    {
        mmio::set_bit(&mut self.regs.cr1, 1 << 9);
        let ghost sr0 = self.regs.sr1;
        // The modeled bus raises the stop flag at once.
        mmio::set_bit(&mut self.regs.sr1, I2C_SR1_STOPF);
        proof {
            assert((sr0 | I2C_SR1_STOPF) & I2C_SR1_STOPF != 0) by (bit_vector);
        }
        mmio::wait_set(&self.regs.sr1, I2C_SR1_STOPF);
    }

    /// Send a 7-bit device address, the top bit forced clear, and busy-wait
    /// until the bus reports the address sent.
    pub fn send_address(&mut self, addr: u8)
        ensures
            final(self).base == old(self).base,
            final(self).regs == (I2cRegs {
                dr: (addr & 0b0111_1111) as u32,
                sr1: old(self).regs.sr1 | I2C_SR1_ADDR,
                ..old(self).regs
            }),
    {
        mmio::write(&mut self.regs.dr, (addr & 0b0111_1111) as u32);
        let ghost sr0 = self.regs.sr1;
        // The modeled device acknowledges its address at once.
        mmio::set_bit(&mut self.regs.sr1, I2C_SR1_ADDR);
        proof {
            assert((sr0 | I2C_SR1_ADDR) & I2C_SR1_ADDR != 0) by (bit_vector);
        }
        mmio::wait_set(&self.regs.sr1, I2C_SR1_ADDR);
    }

    /// Send one data byte and busy-wait until its transfer finishes.
    pub fn send_byte(&mut self, data: u8)
        ensures
            final(self).base == old(self).base,
            final(self).regs == (I2cRegs {
                dr: data as u32,
                sr1: old(self).regs.sr1 | I2C_SR1_BTF,
                ..old(self).regs
            }),
    {
        mmio::write(&mut self.regs.dr, data as u32);
        let ghost sr0 = self.regs.sr1;
        // The modeled device acknowledges the byte at once.
        mmio::set_bit(&mut self.regs.sr1, I2C_SR1_BTF);
        proof {
            assert((sr0 | I2C_SR1_BTF) & I2C_SR1_BTF != 0) by (bit_vector);
        }
        mmio::wait_set(&self.regs.sr1, I2C_SR1_BTF);
    }
}

} // verus!
