//! One general-purpose I/O port: seven 32-bit registers and the pin
//! operations defined on them.
//!
//! Each of the sixteen pins owns a 4-bit configuration field, at offset
//! `4 * (pin mod 8)` in the low control register `CRL` for pins 0-7 and in
//! the high control register `CRH` for pins 8-15. Driving a pin high or low
//! goes through a single write to the set/reset register `BSRR`: bit `pin`
//! sets the output, bit `pin + 16` clears it, and a set wins over a clear of
//! the same pin. The port model applies that write to the output-data
//! register `ODR` the way the silicon does.

use vstd::prelude::*;

use crate::mmio;

verus! {

/// Electrical mode of a pin, each mapped to a documented 4-bit code.
#[derive(Debug, Clone, Copy)]
pub enum PinMode {
    Analog,
    InFloat,
    InPP,
    OutPP,
    OutDrain,
    OutAltPP,
    OutAltDrain,
}

/// Maximum switching speed of an output pin, a 2-bit code.
#[derive(Debug, Clone, Copy)]
pub enum PinSpeed {
    Max2MHz,
    Max10MHz,
    Max50MHz,
}

/// The register block of one GPIO port.
pub struct Gpio {
    /// Control register for pins 0-7.
    pub crl: u32,
    /// Control register for pins 8-15.
    pub crh: u32,
    /// Input-data register.
    pub idr: u32,
    /// Output-data register.
    pub odr: u32,
    /// Set/reset register; holds the last word written to it.
    pub bsrr: u32,
    /// Reset register.
    pub brr: u32,
    /// Configuration-lock register.
    pub lck: u32,
}

/// The 4-bit code a pin mode is programmed as.
pub open spec fn mode_bits(mode: PinMode) -> u32 {
    match mode {
        PinMode::Analog => 0b0000,
        PinMode::InFloat => 0b0100,
        PinMode::InPP => 0b1000,
        PinMode::OutPP => 0b0010,
        PinMode::OutDrain => 0b0110,
        PinMode::OutAltPP => 0b1010,
        PinMode::OutAltDrain => 0b1110,
    }
}

/// The 2-bit code a pin speed is programmed as.
pub open spec fn speed_bits(speed: PinSpeed) -> u32 {
    match speed {
        PinSpeed::Max2MHz => 0b10,
        PinSpeed::Max10MHz => 0b01,
        PinSpeed::Max50MHz => 0b11,
    }
}

/// The 4-bit configuration field of slot `slot` (0-7) of a control register.
pub open spec fn field4(cr: u32, slot: u32) -> u32 {
    (cr >> (4 * slot)) & 0xf
}

/// A control register with the 4-bit field of slot `slot` replaced by `bits`.
pub open spec fn set_field4(cr: u32, slot: u32, bits: u32) -> u32 {
    (cr & !(0xfu32 << (4 * slot))) | (bits << (4 * slot))
}

/// A control register with the low 2 bits of slot `slot`'s field replaced.
pub open spec fn set_field2(cr: u32, slot: u32, bits: u32) -> u32 {
    (cr & !(0b11u32 << (4 * slot))) | (bits << (4 * slot))
}

/// The mode field of `pin` as read out of the pair of control registers.
pub open spec fn pin_mode_field(crl: u32, crh: u32, pin: u32) -> u32 {
    if pin < 8 {
        field4(crl, pin)
    } else {
        field4(crh, (pin - 8) as u32)
    }
}

/// What the output-data register becomes when `word` is written to the
/// set/reset register: bits 0-15 of the word set the matching output bits,
/// bits 16-31 clear them, and a set wins over a clear of the same pin.
pub open spec fn bsrr_apply(odr: u32, word: u32) -> u32 {
    (odr & !(word >> 16)) | (word & 0xffff)
}

proof fn lemma_bsrr_single_set(odr: u32, pin: u32)
    by (bit_vector)
    requires
        pin < 16,
    ensures
        bsrr_apply(odr, 1u32 << pin) == odr | (1u32 << pin),
{
}

proof fn lemma_bsrr_single_clear(odr: u32, pin: u32)
    by (bit_vector)
    requires
        pin < 16,
    ensures
        bsrr_apply(odr, 1u32 << ((16 + pin) as u32)) == odr & !(1u32 << pin),
{
}

impl Gpio {
    /// A port in its reset state: every pin a floating input, outputs low.
    pub fn new() -> (port: Gpio)
        ensures
            port == (Gpio {
                crl: 0x4444_4444u32,
                crh: 0x4444_4444u32,
                idr: 0,
                odr: 0,
                bsrr: 0,
                brr: 0,
                lck: 0,
            }),
    {
        Gpio { crl: 0x4444_4444, crh: 0x4444_4444, idr: 0, odr: 0, bsrr: 0, brr: 0, lck: 0 }
    }

    /// One write to the set/reset register, and the port's reaction to it.
    fn write_bsrr(&mut self, word: u32)
        ensures
            *final(self) == (Gpio {
                bsrr: word,
                odr: bsrr_apply(old(self).odr, word),
                ..*old(self)
            }),
    {
        mmio::write(&mut self.bsrr, word);
        // The port latches the set/reset word into the output-data register.
        self.odr = (self.odr & !(word >> 16)) | (word & 0xffff);
    }

    /// Drive `pin` high: a single write of bit `pin` to the set/reset
    /// register, never a read-modify-write on unrelated bits.
    pub fn enable_pin(&mut self, pin: u8)
        requires
            pin < 16,
        ensures
            *final(self) == (Gpio {
                bsrr: 1u32 << pin,
                odr: old(self).odr | (1u32 << pin),
                ..*old(self)
            }),
    {
        self.write_bsrr(1u32 << pin);
        proof {
            lemma_bsrr_single_set(old(self).odr, pin as u32);
        }
    }

    /// Drive `pin` low: a single write of bit `pin + 16` to the set/reset
    /// register.
    pub fn disable_pin(&mut self, pin: u8)
        requires
            pin < 16,
        ensures
            *final(self) == (Gpio {
                bsrr: 1u32 << ((16 + pin) as u32),
                odr: old(self).odr & !(1u32 << pin),
                ..*old(self)
            }),
    {
        self.write_bsrr(1u32 << (16 + pin as u32));
        proof {
            lemma_bsrr_single_clear(old(self).odr, pin as u32);
        }
    }

    /// Program the 4-bit mode field of `pin`, clearing the old field before
    /// OR-ing in the new code, in the half-register the pin belongs to.
    pub fn set_pin_mode(&mut self, pin: u8, mode: PinMode)
        requires
            pin < 16,
        ensures
            pin < 8 ==> *final(self) == (Gpio {
                crl: set_field4(old(self).crl, pin as u32, mode_bits(mode)),
                ..*old(self)
            }),
            pin >= 8 ==> *final(self) == (Gpio {
                crh: set_field4(old(self).crh, (pin - 8) as u32, mode_bits(mode)),
                ..*old(self)
            }),
    {
        let bits: u32 = match mode {
            PinMode::Analog => 0b0000,
            PinMode::InFloat => 0b0100,
            PinMode::InPP => 0b1000,
            PinMode::OutPP => 0b0010,
            PinMode::OutDrain => 0b0110,
            PinMode::OutAltPP => 0b1010,
            PinMode::OutAltDrain => 0b1110,
        };
        let shift: u32 = 4 * ((pin as u32) % 8);
        if pin < 8 {
            self.crl = (self.crl & !(0xfu32 << shift)) | (bits << shift);
        } else {
            self.crh = (self.crh & !(0xfu32 << shift)) | (bits << shift);
        }
    }

    /// Program the 2-bit speed field of `pin` (meaningful only for output
    /// modes; the caller is responsible for that).
    pub fn set_pin_speed(&mut self, pin: u8, speed: PinSpeed)
        requires
            pin < 16,
        ensures
            pin < 8 ==> *final(self) == (Gpio {
                crl: set_field2(old(self).crl, pin as u32, speed_bits(speed)),
                ..*old(self)
            }),
            pin >= 8 ==> *final(self) == (Gpio {
                crh: set_field2(old(self).crh, (pin - 8) as u32, speed_bits(speed)),
                ..*old(self)
            }),
    {
        let bits: u32 = match speed {
            PinSpeed::Max2MHz => 0b10,
            PinSpeed::Max10MHz => 0b01,
            PinSpeed::Max50MHz => 0b11,
        };
        let shift: u32 = 4 * ((pin as u32) % 8);
        if pin < 8 {
            self.crl = (self.crl & !(0b11u32 << shift)) | (bits << shift);
        } else {
            self.crh = (self.crh & !(0b11u32 << shift)) | (bits << shift);
        }
    }
}

proof fn lemma_set_field4(cr: u32, slot: u32, bits: u32, other: u32)
    by (bit_vector)
    requires
        slot < 8,
        other < 8,
        other != slot,
        bits <= 0xf,
    ensures
        field4(set_field4(cr, slot, bits), slot) == bits,
        field4(set_field4(cr, slot, bits), other) == field4(cr, other),
{
}

/// Law: programming a pin's mode writes that pin's 4-bit code into the
/// half-register the pin belongs to and leaves every other pin's field, in
/// both half-registers, bit for bit unchanged.
pub proof fn lemma_set_pin_mode_frame(crl: u32, crh: u32, pin: u32, other: u32, mode: PinMode)
    requires
        pin < 16,
        other < 16,
        other != pin,
    ensures
        ({
            let crl2 = if pin < 8 { set_field4(crl, pin, mode_bits(mode)) } else { crl };
            let crh2 = if pin < 8 { crh } else { set_field4(crh, (pin - 8) as u32, mode_bits(mode)) };
            pin_mode_field(crl2, crh2, pin) == mode_bits(mode)
                && pin_mode_field(crl2, crh2, other) == pin_mode_field(crl, crh, other)
        }),
{
    assert(mode_bits(mode) <= 0xf);
    if pin < 8 {
        if other < 8 {
            lemma_set_field4(crl, pin, mode_bits(mode), other);
        } else {
            lemma_set_field4(crl, pin, mode_bits(mode), (((pin + 1) % 8) as u32));
        }
    } else {
        if other >= 8 {
            lemma_set_field4(crh, (pin - 8) as u32, mode_bits(mode), (other - 8) as u32);
        } else {
            lemma_set_field4(crh, (pin - 8) as u32, mode_bits(mode), ((((pin - 8) + 1) % 8) as u32));
        }
    }
}

/// Law: `enable_pin` followed at once by `disable_pin` of the same pin
/// leaves that pin's output-data bit low, and the reverse order leaves it
/// high — the net effect is idempotent but order-sensitive — and either
/// order leaves every other output bit unchanged.
pub proof fn lemma_enable_disable_order(odr: u32, pin: u8)
    requires
        pin < 16,
    ensures
        ((odr | (1u32 << pin)) & !(1u32 << pin)) & (1u32 << pin) == 0,
        ((odr & !(1u32 << pin)) | (1u32 << pin)) & (1u32 << pin) == (1u32 << pin),
        forall|other: u8|
            other < 16 && other != pin ==> ((odr | (1u32 << pin)) & !(1u32 << pin)) & (1u32
                << other) == odr & (1u32 << other) && ((odr & !(1u32 << pin)) | (1u32 << pin)) & (
            1u32 << other) == odr & (1u32 << other),
{
    assert(((odr | (1u32 << pin)) & !(1u32 << pin)) & (1u32 << pin) == 0 && ((odr & !(1u32 << pin))
        | (1u32 << pin)) & (1u32 << pin) == (1u32 << pin)) by (bit_vector)
        requires
            pin < 16,
    ;
    assert forall|other: u8| other < 16 && other != pin implies ((odr | (1u32 << pin)) & !(1u32
        << pin)) & (1u32 << other) == odr & (1u32 << other) && ((odr & !(1u32 << pin)) | (1u32
        << pin)) & (1u32 << other) == odr & (1u32 << other) by {
        assert(((odr | (1u32 << pin)) & !(1u32 << pin)) & (1u32 << other) == odr & (1u32 << other)
            && ((odr & !(1u32 << pin)) | (1u32 << pin)) & (1u32 << other) == odr & (1u32 << other))
            by (bit_vector)
            requires
                pin < 16,
                other < 16,
                other != pin,
        ;
    }
}

} // verus!
