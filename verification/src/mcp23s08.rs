//! The register write of an MCP23S08 SPI I/O-expander: one composed
//! transaction of the SPI driver, with the chip-select pin of port C driven
//! low around the three bytes of the write.

use vstd::prelude::*;

use crate::gpio::Gpio;
use crate::spi::{SpiRegs, SPI};

verus! {

/// I/O-direction register of the expander.
pub const IODIR: u8 = 0x00;

/// Input-polarity register.
pub const IPOL: u8 = 0x01;

/// Interrupt-on-change enable register.
pub const GPINTEN: u8 = 0x02;

/// Default-compare register.
pub const DEFVAL: u8 = 0x03;

/// Interrupt-control register.
pub const INTCON: u8 = 0x04;

/// Configuration register.
pub const IOCON: u8 = 0x05;

/// Pull-up enable register.
pub const GPPU: u8 = 0x06;

/// Interrupt-flag register.
pub const INTF: u8 = 0x07;

/// Interrupt-capture register.
pub const INTCAP: u8 = 0x08;

/// Port register.
pub const GPIO: u8 = 0x09;

/// Output-latch register.
pub const OLAT: u8 = 0x0a;

/// Write one register of the expander: pull chip select low, shift out the
/// write opcode, the register number and the value, then raise chip select.
/// Whatever the device shifts back during those three transfers is
/// discarded.
pub fn write_reg(spi: &mut SPI, gpioc: &mut Gpio, reg: u8, value: u8)
    requires
        old(spi).wf(),
    ensures
        final(spi).wf(),
        final(spi).base == old(spi).base,
        final(spi).mosi@ == old(spi).mosi@ + seq![0x40u8, reg, value],
        final(spi).miso@ == old(spi).miso@.skip(
            if old(spi).miso@.len() < 3 {
                old(spi).miso@.len() as int
            } else {
                3
            },
        ),
        final(spi).regs == (SpiRegs { dr: final(spi).regs.dr, ..old(spi).regs }),
        *final(gpioc) == (Gpio { bsrr: 1, odr: old(gpioc).odr | 1, ..*old(gpioc) }),
{
    // Select the device: the chip-select line is active low.
    gpioc.disable_pin(0);
    spi.send_recv_byte(0x40);
    spi.send_recv_byte(reg);
    spi.send_recv_byte(value);
    // Deselect the device.
    gpioc.enable_pin(0);
    proof {
        assert(spi.mosi@ =~= old(spi).mosi@ + seq![0x40u8, reg, value]);
        let m = old(spi).miso@;
        if m.len() >= 3 {
            assert(m.drop_first().drop_first().drop_first() =~= m.skip(3));
        } else if m.len() == 2 {
            assert(m.drop_first().drop_first() =~= m.skip(2));
        } else if m.len() == 1 {
            assert(m.drop_first() =~= m.skip(1));
        } else {
            assert(m =~= m.skip(0));
        }
        let odr0 = old(gpioc).odr;
        assert(1u32 << 0u8 == 1u32 && (odr0 & !(1u32 << 0u8)) | (1u32 << 0u8) == odr0 | 1u32)
            by (bit_vector);
    }
}

} // verus!
