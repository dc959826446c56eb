//! One USART (serial port): its register block, the wire it transmits and
//! receives on, and the polled send/receive operations, including the
//! echoing line editor the console reads commands with.
//!
//! The wire is part of the model: `sent` is every byte that has left on the
//! transmit line, `recv` the bytes that have arrived and wait to be read.
//! The status register of the modeled device always reports the transmitter
//! idle, and reports "receive not empty" exactly while bytes wait; on
//! silicon the same polling loops would spin until the flags appear.

use vstd::prelude::*;
use vstd::string::StrSliceExecFns;

use crate::gpio::{mode_bits, set_field4, Gpio, PinMode};
use crate::mmio;
use crate::rcc::{get_clock_speed, spec_clock_speed, Clock, Rcc, RCC_CFGR_SWS};
use crate::text::{ascii_bytes, dec_bytes, hex_byte_bytes, hex_digit};

verus! {

/// Read-data-register-not-empty status bit: a byte waits to be read.
pub const USART_SR_RXNE: u32 = 1 << 5;

/// Transmission-complete status bit.
pub const USART_SR_TC: u32 = 1 << 6;

/// Transmit-register-empty status bit: a byte may be sent.
pub const USART_SR_TXE: u32 = 1 << 7;

/// Device enable bit of control register 1.
pub const USART_CR1_UE: u32 = 1 << 13;

/// Receiver enable bit.
pub const USART_CR1_RE: u32 = 1 << 2;

/// Transmitter enable bit.
pub const USART_CR1_TE: u32 = 1 << 3;

/// Base address of USART1; a port's identity is its base address.
pub const USART1_BASE: u32 = 0x4001_3800;

/// Base address of USART2, the port wired to the debug console.
pub const USART2_BASE: u32 = 0x4000_4400;

/// Base address of USART3.
pub const USART3_BASE: u32 = 0x4000_4800;

/// The register block of one USART.
pub struct UsartRegs {
    /// Status register.
    pub sr: u32,
    /// Data register.
    pub dr: u32,
    /// Baud-rate register: mantissa in the high bits, 4-bit fraction low.
    pub brr: u32,
    /// Control register 1: enables.
    pub cr1: u32,
    /// Control register 2: stop bits, hardware flow control.
    pub cr2: u32,
    /// Control register 3.
    pub cr3: u32,
    /// Guard-time and prescaler register.
    pub gtpr: u32,
}

/// One USART port: its identity, registers, and the wire it drives.
pub struct Usart {
    /// Base address of the register block; the port's identity.
    pub base: u32,
    /// The bus clock that feeds the port's baud generator.
    pub clock: Clock,
    /// The port's registers.
    pub regs: UsartRegs,
    /// Every byte transmitted on the wire, oldest first.
    pub sent: Vec<u8>,
    /// Bytes arrived on the wire and not yet read, oldest first.
    pub recv: Vec<u8>,
}

/// The baud rates the console is built for.
#[derive(Debug, Clone, Copy)]
pub enum Baudrate {
    _9600,
    _115200,
}

/// The numeric rate a `Baudrate` stands for.
pub open spec fn spec_baud(b: Baudrate) -> u32 {
    match b {
        Baudrate::_9600 => 9600,
        Baudrate::_115200 => 115200,
    }
}

impl Baudrate {
    /// The numeric rate, in bits per second.
    pub fn value(&self) -> (v: u32)
        ensures
            v == spec_baud(*self),
    {
        match self {
            Baudrate::_9600 => 9600,
            Baudrate::_115200 => 115200,
        }
    }
}

/// The baud-rate-register value derived for a clock and rate: the peripheral
/// clock divided by sixteen times the rate, shifted into the mantissa field;
/// the 4-bit fractional part is left zero (a documented inexactness).
pub open spec fn spec_brr(cfgr: u32, clock: Clock, baud: Baudrate) -> u32 {
    ((spec_clock_speed(cfgr, clock) as int / (16 * spec_baud(baud) as int)) as u32) << 4u32
}

/// Whether the control registers, the identity and the receive side of two
/// ports agree; the data and status registers are scratch.
pub open spec fn ctrl_eq(a: UsartRegs, b: UsartRegs) -> bool {
    &&& a.brr == b.brr
    &&& a.cr1 == b.cr1
    &&& a.cr2 == b.cr2
    &&& a.cr3 == b.cr3
    &&& a.gtpr == b.gtpr
}

/// Outcome of the line editor on a given arrival sequence: the buffer as
/// filled, the bytes echoed back, and how many arrived bytes were consumed.
pub struct LineEdit {
    /// The buffer contents when the editor returns.
    pub buf: Seq<u8>,
    /// Every byte echoed back over the wire.
    pub echo: Seq<u8>,
    /// How many arrived bytes the editor consumed.
    pub used: nat,
}

/// What reading one line does, given the bytes that will arrive: each byte
/// is read and echoed and stored in turn; backspace or delete erases the
/// last stored byte and echoes a visual erase sequence; carriage return or
/// line feed ends the line; a byte read into a full buffer is discarded and
/// ends the line. `None` when the arrivals run out before the line ends
/// (the reader would block forever), or when an erase arrives with nothing
/// stored (no outcome is defined for erasing past the start of the line).
pub open spec fn line_edit(input: Seq<u8>, buf: Seq<u8>, pos: nat) -> Option<LineEdit>
    decreases input.len(),
{
    if input.len() == 0 {
        None
    } else {
        let b = input[0];
        if pos >= buf.len() {
            Some(LineEdit { buf: buf, echo: Seq::empty(), used: 1 })
        } else if b == 8 || b == 0x7f {
            if pos == 0 {
                None
            } else {
                match line_edit(input.drop_first(), buf.update(pos - 1, 0u8), (pos - 1) as nat) {
                    Some(r) => Some(
                        LineEdit {
                            buf: r.buf,
                            echo: seq![8u8, 0x20u8, 8u8] + r.echo,
                            used: (r.used + 1) as nat,
                        },
                    ),
                    None => None,
                }
            }
        } else if b == 0x0a || b == 0x0d {
            Some(LineEdit { buf: buf, echo: seq![0x0au8, 0x0du8], used: 1 })
        } else {
            match line_edit(input.drop_first(), buf.update(pos as int, b), (pos + 1) as nat) {
                Some(r) => Some(
                    LineEdit { buf: r.buf, echo: seq![b] + r.echo, used: (r.used + 1) as nat },
                ),
                None => None,
            }
        }
    }
}

impl Usart {
    /// The port model is sound: the transmitter reports idle, and a byte is
    /// reported waiting exactly while one waits.
    pub open spec fn wf(&self) -> bool {
        &&& self.regs.sr & USART_SR_TXE != 0
        &&& self.regs.sr & USART_SR_TC != 0
        &&& (self.regs.sr & USART_SR_RXNE != 0 <==> self.recv@.len() > 0)
    }

    /// A port in its reset state, fed by the given bus clock.
    pub fn new(base: u32, clock: Clock) -> (port: Usart)
        ensures
            port.base == base,
            port.clock == clock,
            port.regs == (UsartRegs {
                sr: USART_SR_TXE | USART_SR_TC,
                dr: 0,
                brr: 0,
                cr1: 0,
                cr2: 0,
                cr3: 0,
                gtpr: 0,
            }),
            port.sent@ == Seq::<u8>::empty(),
            port.recv@ == Seq::<u8>::empty(),
            port.wf(),
    {
        proof {
            assert((USART_SR_TXE | USART_SR_TC) & USART_SR_TXE != 0 && (USART_SR_TXE | USART_SR_TC)
                & USART_SR_TC != 0 && (USART_SR_TXE | USART_SR_TC) & USART_SR_RXNE == 0)
                by (bit_vector);
        }
        Usart {
            base,
            clock,
            regs: UsartRegs {
                sr: USART_SR_TXE | USART_SR_TC,
                dr: 0,
                brr: 0,
                cr1: 0,
                cr2: 0,
                cr3: 0,
                gtpr: 0,
            },
            sent: Vec::new(),
            recv: Vec::new(),
        }
    }

    /// A byte arrives on the receive wire: it joins the waiting bytes and
    /// the status register reports "receive not empty".
    pub fn feed(&mut self, byte: u8)
        requires
            old(self).wf(),
        ensures
            final(self).wf(),
            final(self).base == old(self).base,
            final(self).clock == old(self).clock,
            final(self).regs == (UsartRegs {
                sr: old(self).regs.sr | USART_SR_RXNE,
                ..old(self).regs
            }),
            final(self).sent == old(self).sent,
            final(self).recv@ == old(self).recv@.push(byte),
    {
        let ghost sr0 = self.regs.sr;
        self.recv.push(byte);
        mmio::set_bit(&mut self.regs.sr, USART_SR_RXNE);
        proof {
            assert((sr0 | USART_SR_RXNE) & USART_SR_TXE != 0 && (sr0 | USART_SR_RXNE) & USART_SR_TC
                != 0 && (sr0 | USART_SR_RXNE) & USART_SR_RXNE != 0) by (bit_vector)
                requires
                    sr0 & USART_SR_TXE != 0,
                    sr0 & USART_SR_TC != 0,
            ;
        }
    }
}

impl Usart {
    /// Transmit a string, one byte per character; console strings are
    /// ASCII, and each character is sent as its byte.
    pub fn write_str(&mut self, s: &str)
        requires
            old(self).wf(),
        ensures
            final(self).wf(),
            final(self).base == old(self).base,
            final(self).clock == old(self).clock,
            final(self).sent@ == old(self).sent@ + ascii_bytes(s@),
            final(self).recv == old(self).recv,
            ctrl_eq(final(self).regs, old(self).regs),
            final(self).regs.sr == old(self).regs.sr,
    {
        let len = s.unicode_len();
        let mut i: usize = 0;
        proof {
            assert(old(self).sent@ + ascii_bytes(s@).take(0) =~= old(self).sent@);
        }
        while i < len
            invariant
                i <= len,
                len == s@.len(),
                self.wf(),
                self.base == old(self).base,
                self.clock == old(self).clock,
                self.recv == old(self).recv,
                ctrl_eq(self.regs, old(self).regs),
                self.regs.sr == old(self).regs.sr,
                self.sent@ == old(self).sent@ + ascii_bytes(s@).take(i as int),
            decreases len - i,
        {
            let c = s.get_char(i);
            self.send_byte(c as u8);
            proof {
                assert(ascii_bytes(s@).take(i + 1) =~= ascii_bytes(s@).take(i as int).push(
                    s@[i as int] as u8,
                ));
                assert(self.sent@ =~= old(self).sent@ + ascii_bytes(s@).take(i + 1));
            }
            i += 1;
        }
        proof {
            assert(ascii_bytes(s@).take(len as int) =~= ascii_bytes(s@));
        }
    }

    /// Transmit a number in decimal.
    pub fn write_dec(&mut self, v: u32)
        requires
            old(self).wf(),
        ensures
            final(self).wf(),
            final(self).base == old(self).base,
            final(self).clock == old(self).clock,
            final(self).sent@ == old(self).sent@ + dec_bytes(v),
            final(self).recv == old(self).recv,
            ctrl_eq(final(self).regs, old(self).regs),
            final(self).regs.sr == old(self).regs.sr,
        decreases v,
    {
        if v >= 10 {
            self.write_dec(v / 10);
        }
        self.send_byte((48 + v % 10) as u8);
        proof {
            if v < 10 {
                assert(old(self).sent@ + dec_bytes(v) =~= old(self).sent@.push((48 + v) as u8));
            } else {
                assert(old(self).sent@ + dec_bytes(v) =~= (old(self).sent@ + dec_bytes(v / 10)).push(
                    (48 + v % 10) as u8,
                ));
            }
        }
    }

    /// Transmit a byte in its shortest lower-case hexadecimal form.
    pub fn write_hex_byte(&mut self, v: u8)
        requires
            old(self).wf(),
        ensures
            final(self).wf(),
            final(self).base == old(self).base,
            final(self).clock == old(self).clock,
            final(self).sent@ == old(self).sent@ + hex_byte_bytes(v),
            final(self).recv == old(self).recv,
            ctrl_eq(final(self).regs, old(self).regs),
            final(self).regs.sr == old(self).regs.sr,
    {
        if v >= 16 {
            let hi: u8 = v / 16;
            let d: u8 = if hi < 10 {
                48 + hi
            } else {
                87 + hi
            };
            self.send_byte(d);
        }
        let lo: u8 = v % 16;
        let d: u8 = if lo < 10 {
            48 + lo
        } else {
            87 + lo
        };
        self.send_byte(d);
        proof {
            if v < 16 {
                assert(old(self).sent@ + hex_byte_bytes(v) =~= old(self).sent@.push(
                    hex_digit(v as u32),
                ));
            } else {
                assert(old(self).sent@ + hex_byte_bytes(v) =~= old(self).sent@.push(
                    hex_digit(v as u32 / 16),
                ).push(hex_digit(v as u32 % 16)));
            }
        }
    }
}

/// The capability set of a serial port: bring it up at a baud rate, then
/// send and receive bytes and read edited lines, each operation polling the
/// port's status flags to completion.
#[allow(non_camel_case_types)]
pub trait Usart_trait: Sized {
    /// The modeled port this value stands for.
    spec fn model(&self) -> Usart;

    /// Bring the port up: safe register defaults, transmitter and receiver
    /// enabled, the baud divisor derived from the feeding bus clock and
    /// programmed, and the device enabled; for the console port, the two
    /// console pins of port A are muxed to their serial functions.
    fn initialize(&mut self, baudrate: Baudrate, rcc: &Rcc, gpioa: &mut Gpio)
        requires
            rcc.cfgr & RCC_CFGR_SWS != 0b11 << 2,
        ensures
            final(self).model().regs == (UsartRegs {
                cr2: 0,
                cr1: (old(self).model().regs.cr1 | (USART_CR1_TE | USART_CR1_RE)) | USART_CR1_UE,
                brr: spec_brr(rcc.cfgr, old(self).model().clock, baudrate),
                ..old(self).model().regs
            }),
            final(self).model().base == old(self).model().base,
            final(self).model().clock == old(self).model().clock,
            final(self).model().sent == old(self).model().sent,
            final(self).model().recv == old(self).model().recv,
            old(self).model().base == USART2_BASE ==> *final(gpioa) == (Gpio {
                crl: set_field4(
                    set_field4(old(gpioa).crl, 2, mode_bits(PinMode::OutAltPP)),
                    3,
                    mode_bits(PinMode::InFloat),
                ),
                ..*old(gpioa)
            }),
            old(self).model().base != USART2_BASE ==> *final(gpioa) == *old(gpioa),
    ;

    /// Send one byte: busy-wait for "transmit register empty", write the
    /// byte, busy-wait for "transmission complete". The byte goes out on
    /// the wire.
    fn send_byte(&mut self, byte: u8)
        requires
            old(self).model().wf(),
        ensures
            final(self).model().wf(),
            final(self).model().base == old(self).model().base,
            final(self).model().clock == old(self).model().clock,
            final(self).model().regs == (UsartRegs { dr: byte as u32, ..old(self).model().regs }),
            final(self).model().sent@ == old(self).model().sent@.push(byte),
            final(self).model().recv == old(self).model().recv,
    ;

    /// Receive one byte: busy-wait for "receive register not empty", then
    /// read it. With nothing waiting the hardware would block forever, so a
    /// byte must be waiting.
    fn get_byte(&mut self) -> (byte: u8)
        requires
            old(self).model().wf(),
            old(self).model().recv@.len() > 0,
        ensures
            final(self).model().wf(),
            final(self).model().base == old(self).model().base,
            final(self).model().clock == old(self).model().clock,
            byte == old(self).model().recv@[0],
            final(self).model().recv@ == old(self).model().recv@.drop_first(),
            final(self).model().sent == old(self).model().sent,
            final(self).model().regs == (UsartRegs {
                dr: byte as u32,
                sr: if old(self).model().recv@.len() == 1 {
                    old(self).model().regs.sr & !USART_SR_RXNE
                } else {
                    old(self).model().regs.sr
                },
                ..old(self).model().regs
            }),
    ;

    /// Read one line into `buf`, echoing every byte, erasing on backspace
    /// or delete, ending on carriage return or line feed or a full buffer;
    /// the rest of the buffer is left as it was. The arrivals must carry
    /// the line to its end, with no erase while nothing is stored.
    fn get_string(&mut self, buf: &mut Vec<u8>)
        requires
            old(self).model().wf(),
            line_edit(old(self).model().recv@, old(buf)@, 0) is Some,
        ensures
            final(self).model().wf(),
            final(self).model().base == old(self).model().base,
            final(self).model().clock == old(self).model().clock,
            ctrl_eq(final(self).model().regs, old(self).model().regs),
            final(buf)@.len() == old(buf)@.len(),
            ({
                let r = line_edit(old(self).model().recv@, old(buf)@, 0).unwrap();
                &&& final(buf)@ == r.buf
                &&& final(self).model().sent@ == old(self).model().sent@ + r.echo
                &&& final(self).model().recv@ == old(self).model().recv@.skip(r.used as int)
            }),
    ;
}

impl Usart_trait for Usart {
    open spec fn model(&self) -> Usart {
        *self
    }

    fn initialize(&mut self, baudrate: Baudrate, rcc: &Rcc, gpioa: &mut Gpio) {
        let step: u32 = 16 * baudrate.value();
        let mut usartdiv: u32 = 0;
        let mut clock_speed = get_clock_speed(rcc, self.clock);
        let ghost clock0 = clock_speed;

        // Integer-divide the peripheral clock by sixteen times the rate, by
        // repeated subtraction.
        while clock_speed >= step
            invariant
                step == 16 * spec_baud(baudrate),
                step >= 153600,
                (usartdiv as int) * (step as int) + (clock_speed as int) == clock0 as int,
            decreases clock_speed,
        {
            assert((usartdiv as int) * (step as int) <= u32::MAX as int);
            assert(usartdiv < 30000) by (nonlinear_arith)
                requires
                    (usartdiv as int) * (step as int) <= 0xffff_ffff,
                    step >= 153600,
            ;
            proof {
                assert(((usartdiv as int) + 1) * (step as int) == (usartdiv as int) * (step as int)
                    + (step as int)) by (nonlinear_arith);
            }
            usartdiv += 1;
            clock_speed -= step;
        }
        assert(usartdiv as int == clock0 as int / step as int) by (nonlinear_arith)
            requires
                (usartdiv as int) * (step as int) + (clock_speed as int) == clock0 as int,
                0 <= clock_speed < step,
                step > 0,
        ;

        // The low 4 bits are the fractional part, intentionally left zero.
        usartdiv = usartdiv << 4u32;

        // Stop-bit configuration at its reset value: one stop bit.
        mmio::write(&mut self.regs.cr2, 0x0);

        // Enable transmission and reception.
        mmio::set_bits(&mut self.regs.cr1, USART_CR1_TE | USART_CR1_RE);

        // Program the baud-rate divisor.
        mmio::write(&mut self.regs.brr, usartdiv);

        // Enable the device.
        mmio::set_bits(&mut self.regs.cr1, USART_CR1_UE);

        if self.base == USART2_BASE {
            // Mux the console pins: transmit out, receive floating in.
            gpioa.set_pin_mode(2, PinMode::OutAltPP);
            gpioa.set_pin_mode(3, PinMode::InFloat);
        }
    }

    fn send_byte(&mut self, byte: u8) {
        // Wait until there is room to transmit.
        mmio::wait_set(&self.regs.sr, USART_SR_TXE);

        // Transmit the byte.
        mmio::write(&mut self.regs.dr, byte as u32);
        // The modeled wire carries the data register's byte out at once.
        self.sent.push(byte);

        // Wait until the transmission is complete.
        mmio::wait_set(&self.regs.sr, USART_SR_TC);
    }

    fn get_byte(&mut self) -> (byte: u8) {
        // Wait until a byte waits in the receive register.
        mmio::wait_set(&self.regs.sr, USART_SR_RXNE);

        let ghost sr0 = self.regs.sr;
        let byte = self.recv.remove(0);
        // The data register holds the byte; the flag clears when nothing
        // more waits.
        mmio::write(&mut self.regs.dr, byte as u32);
        if self.recv.len() == 0 {
            mmio::unset_bits(&mut self.regs.sr, USART_SR_RXNE);
            proof {
                assert((sr0 & !USART_SR_RXNE) & USART_SR_TXE != 0 && (sr0 & !USART_SR_RXNE)
                    & USART_SR_TC != 0 && (sr0 & !USART_SR_RXNE) & USART_SR_RXNE == 0)
                    by (bit_vector)
                    requires
                        sr0 & USART_SR_TXE != 0,
                        sr0 & USART_SR_TC != 0,
                ;
            }
        }
        proof {
            assert(self.recv@ =~= old(self).recv@.drop_first());
        }
        byte
    }

    fn get_string(&mut self, buf: &mut Vec<u8>) {
        let ghost init_recv = self.recv@;
        let ghost init_buf = buf@;
        let ghost init_sent = self.sent@;
        let ghost total = line_edit(init_recv, init_buf, 0).unwrap();
        let ghost mut echoed: Seq<u8> = Seq::empty();
        let mut i: usize = 0;
        proof {
            assert(init_recv.skip(0) =~= init_recv);
            assert(init_sent + echoed =~= init_sent);
        }
        loop
            invariant_except_break
                line_edit(self.recv@, buf@, i as nat) is Some,
                ({
                    let rest = line_edit(self.recv@, buf@, i as nat).unwrap();
                    &&& total.buf == rest.buf
                    &&& total.echo == echoed + rest.echo
                    &&& total.used == init_recv.len() - self.recv@.len() + rest.used
                }),
            invariant
                self.wf(),
                i <= buf.len(),
                buf@.len() == init_buf.len(),
                self.base == old(self).base,
                self.clock == old(self).clock,
                ctrl_eq(self.regs, old(self).regs),
                init_recv == old(self).recv@,
                init_buf == old(buf)@,
                init_sent == old(self).sent@,
                total == line_edit(init_recv, init_buf, 0).unwrap(),
                line_edit(init_recv, init_buf, 0) is Some,
                self.sent@ == init_sent + echoed,
                self.recv@.len() <= init_recv.len(),
                init_recv.skip((init_recv.len() - self.recv@.len()) as int) == self.recv@,
            ensures
                self.wf(),
                buf@.len() == init_buf.len(),
                self.base == old(self).base,
                self.clock == old(self).clock,
                ctrl_eq(self.regs, old(self).regs),
                buf@ == total.buf,
                self.sent@ == init_sent + total.echo,
                self.recv@ == init_recv.skip(total.used as int),
            decreases self.recv@.len(),
        {
            let ghost recv_pre = self.recv@;
            let ghost buf_pre = buf@;
            let ghost used_pre = (init_recv.len() - self.recv@.len()) as nat;
            proof {
                // The arrivals have not run out: the editor's outcome is
                // defined, so at least one byte waits.
                if self.recv@.len() == 0 {
                    assert(line_edit(self.recv@, buf@, i as nat) is None);
                }
            }
            let byte = self.get_byte();
            proof {
                assert(init_recv.skip(used_pre as int + 1) =~= recv_pre.drop_first());
            }
            if i >= buf.len() {
                // A byte read into a full buffer is discarded and ends the
                // line.
                proof {
                    let rest_pre = line_edit(recv_pre, buf_pre, i as nat).unwrap();
                    assert(rest_pre.buf == buf_pre && rest_pre.echo =~= Seq::<u8>::empty()
                        && rest_pre.used == 1);
                    assert(total.echo =~= echoed);
                    assert(self.recv@ =~= init_recv.skip(total.used as int));
                }
                break;
            }
            if byte == 0x8 || byte == 0x7f {
                proof {
                    if i == 0 {
                        assert(line_edit(recv_pre, buf_pre, i as nat) is None);
                    }
                }
                // Erase the last stored byte, and echo erase-space-erase so
                // a terminal wipes it.
                self.send_byte(0x8);
                self.send_byte(0x20);
                self.send_byte(0x8);
                i -= 1;
                buf[i] = 0x0;
                proof {
                    let rest_pre = line_edit(recv_pre, buf_pre, (i + 1) as nat).unwrap();
                    let rest_now = line_edit(self.recv@, buf@, i as nat).unwrap();
                    assert(rest_pre.buf == rest_now.buf && rest_pre.echo == seq![
                        8u8,
                        0x20u8,
                        8u8,
                    ] + rest_now.echo && rest_pre.used == rest_now.used + 1);
                    assert(self.sent@ =~= init_sent + (echoed + seq![8u8, 0x20u8, 8u8]));
                    echoed = echoed + seq![8u8, 0x20u8, 8u8];
                    assert(total.echo =~= echoed + rest_now.echo);
                }
            } else if byte == 0x0a || byte == 0x0d {
                // A line terminator: echo newline and carriage return and
                // finish.
                self.send_byte(0x0a);
                self.send_byte(0x0d);
                proof {
                    assert(self.sent@ =~= init_sent + (echoed + seq![0x0au8, 0x0du8]));
                    echoed = echoed + seq![0x0au8, 0x0du8];
                    assert(total.echo =~= echoed);
                    assert(self.recv@ =~= init_recv.skip(total.used as int));
                }
                break;
            } else {
                // An ordinary byte: echo it and store it.
                self.send_byte(byte);
                buf[i] = byte;
                i += 1;
                proof {
                    let rest_pre = line_edit(recv_pre, buf_pre, (i - 1) as nat).unwrap();
                    let rest_now = line_edit(self.recv@, buf@, i as nat).unwrap();
                    assert(rest_pre.buf == rest_now.buf && rest_pre.echo == seq![byte]
                        + rest_now.echo && rest_pre.used == rest_now.used + 1);
                    assert(self.sent@ =~= init_sent + (echoed + seq![byte]));
                    echoed = echoed + seq![byte];
                    assert(total.echo =~= echoed + rest_now.echo);
                }
            }
        }
        proof {
            assert(buf@ == total.buf);
        }
    }
}

} // verus!
