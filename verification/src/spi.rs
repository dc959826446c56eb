//! One SPI controller in master mode: its register block, the two data
//! lines, and the full-duplex single-byte exchange, polled to completion.
//!
//! The wires are part of the model: `mosi` is every byte shifted out to the
//! device, `miso` the bytes the attached device will shift back, oldest
//! first; with nothing queued the idle line reads as zero. Chip select is a
//! plain GPIO pin driven by the caller around a transaction.

use vstd::prelude::*;

use crate::gpio::{mode_bits, set_field2, set_field4, speed_bits, Gpio, PinMode, PinSpeed};
use crate::mmio;

verus! {

/// Data-frame-format bit: 8-bit frames when clear.
pub const SPI_CR1_DFF: u32 = 1 << 11;

/// Software slave-management bit.
pub const SPI_CR1_SSM: u32 = 1 << 9;

/// Internal slave-select bit.
pub const SPI_CR1_SSI: u32 = 1 << 8;

/// Least-significant-bit-first bit: most significant first when clear.
pub const SPI_CR1_LSBFIRST: u32 = 1 << 7;

/// Device enable bit.
pub const SPI_CR1_SPE: u32 = 1 << 6;

/// Baud-rate prescaler field.
pub const SPI_CR1_BR: u32 = 0b111 << 3;

/// Master-mode bit.
pub const SPI_CR1_MSTR: u32 = 1 << 2;

/// Clock-polarity bit: clock idles low when clear.
pub const SPI_CR1_CPOL: u32 = 1 << 1;

/// Clock-phase bit: capture on the first edge when clear.
pub const SPI_CR1_CPHA: u32 = 1 << 0;

/// Transmit-buffer-empty status bit.
pub const SPI_SR_TXE: u32 = 1 << 1;

/// Receive-buffer-not-empty status bit.
pub const SPI_SR_RXNE: u32 = 1 << 0;

/// Base address of SPI1; a controller's identity is its base address.
pub const SPI1_BASE: u32 = 0x4001_3000;

/// The control-register value the bring-up programs: peripheral clock
/// divided by 16, clock idle low and capture on the first edge, 8-bit
/// frames most-significant first, software-managed chip select, master
/// mode, device enabled.
pub const SPI_CR1_INIT: u32 = ((((((0b011 << 3) & !(SPI_CR1_CPOL | SPI_CR1_CPHA)) & !SPI_CR1_DFF)
    & !SPI_CR1_LSBFIRST) | (SPI_CR1_SSM | SPI_CR1_SSI)) | SPI_CR1_MSTR) | SPI_CR1_SPE;

/// The register block of one SPI controller.
pub struct SpiRegs {
    /// Control register 1.
    pub cr1: u32,
    /// Control register 2.
    pub cr2: u32,
    /// Status register.
    pub sr: u32,
    /// Data register.
    pub dr: u32,
    /// CRC-polynomial register.
    pub crcpr: u32,
    /// Receive-CRC register.
    pub rxcrcr: u32,
    /// Transmit-CRC register.
    pub txcrcr: u32,
    /// I2S configuration register.
    pub i2scfgr: u32,
    /// I2S prescaler register.
    pub i2spr: u32,
}

/// One SPI controller: its identity, registers, and the two data lines.
pub struct SPI {
    /// Base address of the register block; the controller's identity.
    pub base: u32,
    /// The controller's registers.
    pub regs: SpiRegs,
    /// Every byte shifted out on the master-out line, oldest first.
    pub mosi: Vec<u8>,
    /// Bytes the attached device will shift back, oldest first.
    pub miso: Vec<u8>,
}

impl SPI {
    /// The controller model is sound: the transmit buffer reports empty and
    /// no unread byte waits between transfers.
    pub open spec fn wf(&self) -> bool {
        &&& self.regs.sr & SPI_SR_TXE != 0
        &&& self.regs.sr & SPI_SR_RXNE == 0
    }

    /// A controller in its reset state.
    pub fn new(base: u32) -> (spi: SPI)
        ensures
            spi.base == base,
            spi.regs == (SpiRegs {
                cr1: 0,
                cr2: 0,
                sr: SPI_SR_TXE,
                dr: 0,
                crcpr: 0,
                rxcrcr: 0,
                txcrcr: 0,
                i2scfgr: 0,
                i2spr: 0,
            }),
            spi.mosi@ == Seq::<u8>::empty(),
            spi.miso@ == Seq::<u8>::empty(),
            spi.wf(),
    {
        proof {
            assert(SPI_SR_TXE & SPI_SR_TXE != 0 && SPI_SR_TXE & SPI_SR_RXNE == 0) by (bit_vector);
        }
        SPI {
            base,
            regs: SpiRegs {
                cr1: 0,
                cr2: 0,
                sr: SPI_SR_TXE,
                dr: 0,
                crcpr: 0,
                rxcrcr: 0,
                txcrcr: 0,
                i2scfgr: 0,
                i2spr: 0,
            },
            mosi: Vec::new(),
            miso: Vec::new(),
        }
    }

    /// Bring the controller up as a master: for SPI1, mux its clock and
    /// data-out pins to fast alternate outputs and its data-in pin to a
    /// floating input, drive the software chip-select pin of port C high
    /// (inactive), then program the control register and enable the device
    /// last.
    pub fn initialize(&mut self, gpioa: &mut Gpio, gpioc: &mut Gpio)
        ensures
            final(self).base == old(self).base,
            final(self).mosi == old(self).mosi,
            final(self).miso == old(self).miso,
            final(self).regs == (SpiRegs { cr1: SPI_CR1_INIT, ..old(self).regs }),
            old(self).base == SPI1_BASE ==> *final(gpioa) == (Gpio {
                crl: set_field4(
                    set_field2(
                        set_field4(
                            set_field2(
                                set_field4(old(gpioa).crl, 5, mode_bits(PinMode::OutAltPP)),
                                5,
                                speed_bits(PinSpeed::Max50MHz),
                            ),
                            7,
                            mode_bits(PinMode::OutAltPP),
                        ),
                        7,
                        speed_bits(PinSpeed::Max50MHz),
                    ),
                    6,
                    mode_bits(PinMode::InFloat),
                ),
                ..*old(gpioa)
            }),
            old(self).base == SPI1_BASE ==> *final(gpioc) == (Gpio {
                crl: set_field4(old(gpioc).crl, 0, mode_bits(PinMode::OutPP)),
                bsrr: 1,
                odr: old(gpioc).odr | 1,
                ..*old(gpioc)
            }),
            old(self).base != SPI1_BASE ==> *final(gpioa) == *old(gpioa) && *final(gpioc) == *old(
                gpioc,
            ),
    {
        if self.base == SPI1_BASE {
            // Clock out.
            gpioa.set_pin_mode(5, PinMode::OutAltPP);
            gpioa.set_pin_speed(5, PinSpeed::Max50MHz);
            // Data out.
            gpioa.set_pin_mode(7, PinMode::OutAltPP);
            gpioa.set_pin_speed(7, PinSpeed::Max50MHz);
            // Data in.
            gpioa.set_pin_mode(6, PinMode::InFloat);
            // Chip select, driven by software; high is inactive.
            gpioc.set_pin_mode(0, PinMode::OutPP);
            gpioc.enable_pin(0);
            proof {
                assert(1u32 << 0u8 == 1u32) by (bit_vector);
            }
        }

        // Scale the clock down by 16: an appropriate bus rate.
        mmio::write(&mut self.regs.cr1, 0b011 << 3);

        // Clock idles low, capture on the first edge.
        mmio::unset_bits(&mut self.regs.cr1, SPI_CR1_CPOL | SPI_CR1_CPHA);

        // 8 bits of data in a frame.
        mmio::unset_bits(&mut self.regs.cr1, SPI_CR1_DFF);

        // The most significant bit goes first.
        mmio::unset_bits(&mut self.regs.cr1, SPI_CR1_LSBFIRST);

        // The chip-select line is controlled by software.
        mmio::set_bits(&mut self.regs.cr1, SPI_CR1_SSM | SPI_CR1_SSI);

        // Master mode.
        mmio::set_bits(&mut self.regs.cr1, SPI_CR1_MSTR);

        // Enable the device last.
        mmio::set_bits(&mut self.regs.cr1, SPI_CR1_SPE);
    }

    /// Exchange one byte, full duplex: busy-wait for "transmit empty",
    /// write the byte, busy-wait for the byte the device shifts back, and
    /// return it. Driving chip select around a multi-byte transaction is
    /// the caller's responsibility.
    pub fn send_recv_byte(&mut self, byte: u8) -> (received: u8)
        requires
            old(self).wf(),
        ensures
            final(self).wf(),
            final(self).base == old(self).base,
            final(self).mosi@ == old(self).mosi@.push(byte),
            received == (if old(self).miso@.len() > 0 {
                old(self).miso@[0]
            } else {
                0u8
            }),
            final(self).miso@ == (if old(self).miso@.len() > 0 {
                old(self).miso@.drop_first()
            } else {
                old(self).miso@
            }),
            final(self).regs == (SpiRegs { dr: received as u32, ..old(self).regs }),
    {
        // Wait for room in the transmit buffer.
        mmio::wait_set(&self.regs.sr, SPI_SR_TXE);
        mmio::write(&mut self.regs.dr, byte as u32);
        // The modeled transfer completes at once: the byte goes out on the
        // wire and the device's byte lands in the data register.
        self.mosi.push(byte);
        let incoming: u8;
        if self.miso.len() > 0 {
            incoming = self.miso.remove(0);
            proof {
                assert(self.miso@ =~= old(self).miso@.drop_first());
            }
        } else {
            // Nothing drives the line: it idles at zero.
            incoming = 0;
        }
        mmio::write(&mut self.regs.dr, incoming as u32);
        let ghost sr0 = self.regs.sr;
        mmio::set_bit(&mut self.regs.sr, SPI_SR_RXNE);
        proof {
            assert((sr0 | SPI_SR_RXNE) & SPI_SR_RXNE != 0 && (sr0 | SPI_SR_RXNE) & !SPI_SR_RXNE
                == sr0) by (bit_vector)
                requires
                    sr0 & SPI_SR_RXNE == 0,
            ;
        }

        // Wait for the received byte.
        mmio::wait_set(&self.regs.sr, SPI_SR_RXNE);
        let received = mmio::read(&self.regs.dr) as u8;
        // Reading the data register clears the flag.
        mmio::unset_bits(&mut self.regs.sr, SPI_SR_RXNE);
        received
    }
}

} // verus!
