//! The command console: a closed set of commands, each parsing its
//! whitespace-separated arguments, validating them, acting on the board's
//! peripherals, and reporting over the console port. Malformed input is
//! answered with a usage line and performs no hardware action.

use vstd::prelude::*;

use crate::board::Board;
use crate::gpio::{mode_bits, set_field4, Gpio, PinMode};
use crate::mcp23s08;
use crate::spi::SpiRegs;
use crate::text::{
    ascii_bytes, dec_bytes, hex_byte_bytes, parse_i32_hex, parse_u8_dec, parse_u8_hex, spec_parse_i32_hex,
    spec_parse_u8_dec, spec_parse_u8_hex, spec_split, split_spaces, str_eq, before_nul, trim_at_nul,
};
use crate::usart::{ctrl_eq, Usart_trait};

verus! {

/// The commands the console knows, a closed set.
#[derive(Debug, Clone, Copy, PartialEq, Eq)]
pub enum Command {
    Gpio,
    Spi,
    Mcp,
    Blink,
    Loadb,
}

/// The handler registered for a command name: an exact, case-sensitive
/// match against the table, or nothing.
pub open spec fn spec_lookup(name: Seq<char>) -> Option<Command> {
    if name == "gpio"@ {
        Some(Command::Gpio)
    } else if name == "spi"@ {
        Some(Command::Spi)
    } else if name == "mcp"@ {
        Some(Command::Mcp)
    } else if name == "blink"@ {
        Some(Command::Blink)
    } else if name == "loadb"@ {
        Some(Command::Loadb)
    } else {
        None
    }
}

/// Scan the command table for an exact, case-sensitive match: the
/// registered command, or nothing for any other name, the empty one
/// included.
pub fn lookup_command(cmd: &str) -> (r: Option<Command>)
    ensures
        r == spec_lookup(cmd@),
{
    if str_eq(cmd, "gpio") {
        Some(Command::Gpio)
    } else if str_eq(cmd, "spi") {
        Some(Command::Spi)
    } else if str_eq(cmd, "mcp") {
        Some(Command::Mcp)
    } else if str_eq(cmd, "blink") {
        Some(Command::Blink)
    } else if str_eq(cmd, "loadb") {
        Some(Command::Loadb)
    } else {
        None
    }
}

/// A GPIO port letter of the command surface.
#[derive(Debug, Clone, Copy, PartialEq, Eq)]
pub enum Port {
    A,
    B,
    C,
    D,
    E,
    F,
    G,
}

/// The port's register block within a board.
pub open spec fn port_of(b: Board, p: Port) -> Gpio {
    match p {
        Port::A => b.gpioa,
        Port::B => b.gpiob,
        Port::C => b.gpioc,
        Port::D => b.gpiod,
        Port::E => b.gpioe,
        Port::F => b.gpiof,
        Port::G => b.gpiog,
    }
}

/// The upper-case letter a port is reported as.
pub open spec fn port_byte(p: Port) -> u8 {
    match p {
        Port::A => 65,
        Port::B => 66,
        Port::C => 67,
        Port::D => 68,
        Port::E => 69,
        Port::F => 70,
        Port::G => 71,
    }
}

/// The port a command argument names, either case.
pub open spec fn spec_parse_port(t: Seq<char>) -> Option<Port> {
    if t == "A"@ || t == "a"@ {
        Some(Port::A)
    } else if t == "B"@ || t == "b"@ {
        Some(Port::B)
    } else if t == "C"@ || t == "c"@ {
        Some(Port::C)
    } else if t == "D"@ || t == "d"@ {
        Some(Port::D)
    } else if t == "E"@ || t == "e"@ {
        Some(Port::E)
    } else if t == "F"@ || t == "f"@ {
        Some(Port::F)
    } else if t == "G"@ || t == "g"@ {
        Some(Port::G)
    } else {
        None
    }
}

fn parse_port(t: &str) -> (r: Option<Port>)
    ensures
        r == spec_parse_port(t@),
{
    if str_eq(t, "A") || str_eq(t, "a") {
        Some(Port::A)
    } else if str_eq(t, "B") || str_eq(t, "b") {
        Some(Port::B)
    } else if str_eq(t, "C") || str_eq(t, "c") {
        Some(Port::C)
    } else if str_eq(t, "D") || str_eq(t, "d") {
        Some(Port::D)
    } else if str_eq(t, "E") || str_eq(t, "e") {
        Some(Port::E)
    } else if str_eq(t, "F") || str_eq(t, "f") {
        Some(Port::F)
    } else if str_eq(t, "G") || str_eq(t, "g") {
        Some(Port::G)
    } else {
        None
    }
}

/// The electrical mode a command argument names.
pub open spec fn spec_parse_mode(t: Seq<char>) -> Option<PinMode> {
    if t == "analog"@ {
        Some(PinMode::Analog)
    } else if t == "infloat"@ {
        Some(PinMode::InFloat)
    } else if t == "inpp"@ {
        Some(PinMode::InPP)
    } else if t == "outpp"@ {
        Some(PinMode::OutPP)
    } else if t == "outdrain"@ {
        Some(PinMode::OutDrain)
    } else if t == "outaltpp"@ {
        Some(PinMode::OutAltPP)
    } else if t == "outaltdrain"@ {
        Some(PinMode::OutAltDrain)
    } else {
        None
    }
}

fn parse_mode(t: &str) -> (r: Option<PinMode>)
    ensures
        r == spec_parse_mode(t@),
{
    if str_eq(t, "analog") {
        Some(PinMode::Analog)
    } else if str_eq(t, "infloat") {
        Some(PinMode::InFloat)
    } else if str_eq(t, "inpp") {
        Some(PinMode::InPP)
    } else if str_eq(t, "outpp") {
        Some(PinMode::OutPP)
    } else if str_eq(t, "outdrain") {
        Some(PinMode::OutDrain)
    } else if str_eq(t, "outaltpp") {
        Some(PinMode::OutAltPP)
    } else if str_eq(t, "outaltdrain") {
        Some(PinMode::OutAltDrain)
    } else {
        None
    }
}

/// The name an electrical mode is reported under.
pub open spec fn mode_name(m: PinMode) -> Seq<char> {
    match m {
        PinMode::Analog => "Analog"@,
        PinMode::InFloat => "InFloat"@,
        PinMode::InPP => "InPP"@,
        PinMode::OutPP => "OutPP"@,
        PinMode::OutDrain => "OutDrain"@,
        PinMode::OutAltPP => "OutAltPP"@,
        PinMode::OutAltDrain => "OutAltDrain"@,
    }
}

/// Whether the clock tree, the flash interface, the I2C bus and the timer
/// are untouched.
pub open spec fn same_infra(pre: Board, post: Board) -> bool {
    &&& post.rcc == pre.rcc
    &&& post.flash == pre.flash
    &&& post.i2c1 == pre.i2c1
    &&& post.tim2 == pre.tim2
}

/// Whether the SPI bus, its wires included, is untouched.
pub open spec fn same_spi(pre: Board, post: Board) -> bool {
    &&& post.spi1.base == pre.spi1.base
    &&& post.spi1.regs == pre.spi1.regs
    &&& post.spi1.mosi == pre.spi1.mosi
    &&& post.spi1.miso == pre.spi1.miso
}

/// Whether every GPIO port is untouched.
pub open spec fn same_ports(pre: Board, post: Board) -> bool {
    forall|q: Port| #[trigger] port_of(post, q) == port_of(pre, q)
}

/// Whether every GPIO port but `p` is untouched.
pub open spec fn same_ports_except(pre: Board, post: Board, p: Port) -> bool {
    forall|q: Port| q != p ==> #[trigger] port_of(post, q) == port_of(pre, q)
}

/// Whether the console has transmitted exactly `msg` beyond what it had,
/// with its configuration, its identity and its receive side untouched.
pub open spec fn console_appended(pre: Board, post: Board, msg: Seq<u8>) -> bool {
    &&& post.usart2.sent@ == pre.usart2.sent@ + msg
    &&& post.usart2.recv == pre.usart2.recv
    &&& post.usart2.base == pre.usart2.base
    &&& post.usart2.clock == pre.usart2.clock
    &&& ctrl_eq(post.usart2.regs, pre.usart2.regs)
    &&& post.usart2.regs.sr == pre.usart2.regs.sr
    &&& post.usart2.wf()
}

/// The two-line usage answer of the gpio command.
pub open spec fn msg_gpio_usage() -> Seq<u8> {
    ascii_bytes("Usage: gpio <set|clear> <A|B|C|D|E|F|G> <0-15>\r\n"@) + ascii_bytes(
        "Usage: gpio <mode> <A|B|C|D|E|F|G> <0-15> <analog|infloat|inpp|outpp|outdrain|outaltpp|outaltdrain>\r\n"@,
    )
}

/// The usage answer of the gpio mode subcommand.
pub open spec fn msg_gpio_mode_usage() -> Seq<u8> {
    ascii_bytes("Usage: gpio <mode> <A> <0-15> <analog|infloat|inpp|outpp|outdrain|outaltpp|outaltdrain>\r\n"@)
}

/// The report after driving a pin high.
pub open spec fn msg_enabled(pin: u8, p: Port) -> Seq<u8> {
    ascii_bytes("Enabled pin "@) + dec_bytes(pin as u32) + ascii_bytes(" in GPIO port "@) + seq![
        port_byte(p),
    ] + ascii_bytes("\r\n"@)
}

/// The report after driving a pin low.
pub open spec fn msg_disabled(pin: u8, p: Port) -> Seq<u8> {
    ascii_bytes("Disabled pin "@) + dec_bytes(pin as u32) + ascii_bytes(" in GPIO port "@) + seq![
        port_byte(p),
    ] + ascii_bytes("\r\n"@)
}

/// The report after programming a pin's mode.
pub open spec fn msg_mode_set(m: PinMode, pin: u8, p: Port) -> Seq<u8> {
    ascii_bytes("Mode set to "@) + ascii_bytes(mode_name(m)) + ascii_bytes(" for pin "@)
        + dec_bytes(pin as u32) + ascii_bytes(" in GPIO port "@) + seq![port_byte(p)] + ascii_bytes(
        "\r\n"@,
    )
}

/// The usage answer of the spi command.
pub open spec fn msg_spi_usage() -> Seq<u8> {
    ascii_bytes("Usage: spi <1> <output value>\r\n"@)
}

/// The report of the byte an SPI exchange returned.
pub open spec fn msg_returned(v: u8) -> Seq<u8> {
    ascii_bytes("Returned: "@) + hex_byte_bytes(v) + ascii_bytes("\r\n"@)
}

/// The usage answer of the mcp command.
pub open spec fn msg_mcp_usage() -> Seq<u8> {
    ascii_bytes("Usage: mcp write <reg> <value>\r\n"@)
}

/// The usage answer of the loadb command.
pub open spec fn msg_loadb_usage() -> Seq<u8> {
    ascii_bytes("Usage: loadb <address>\r\n"@)
}

/// The answer to a name no command is registered under.
pub open spec fn msg_unknown(name: Seq<char>) -> Seq<u8> {
    ascii_bytes("Unknown command: "@) + ascii_bytes(name) + ascii_bytes("\r\n"@)
}

/// Print one usage string, touching nothing else.
fn print_usage(board: &mut Board, usage: &str)
    requires
        old(board).usart2.wf(),
    ensures
        same_infra(*old(board), *final(board)),
        same_spi(*old(board), *final(board)),
        same_ports(*old(board), *final(board)),
        console_appended(*old(board), *final(board), ascii_bytes(usage@)),
{
    board.usart2.write_str(usage);
}

/// Print the gpio command's two usage lines, touching nothing else.
fn print_gpio_usage(board: &mut Board)
    requires
        old(board).usart2.wf(),
    ensures
        same_infra(*old(board), *final(board)),
        same_spi(*old(board), *final(board)),
        same_ports(*old(board), *final(board)),
        console_appended(*old(board), *final(board), msg_gpio_usage()),
{
    board.usart2.write_str("Usage: gpio <set|clear> <A|B|C|D|E|F|G> <0-15>\r\n");
    board.usart2.write_str(
        "Usage: gpio <mode> <A|B|C|D|E|F|G> <0-15> <analog|infloat|inpp|outpp|outdrain|outaltpp|outaltdrain>\r\n",
    );
    proof {
        assert(final(board).usart2.sent@ =~= old(board).usart2.sent@ + msg_gpio_usage());
    }
}

/// Print the report after a pin was driven, touching nothing else.
fn print_pin_report(board: &mut Board, enabled: bool, pin: u8, p: Port)
    requires
        old(board).usart2.wf(),
    ensures
        same_infra(*old(board), *final(board)),
        same_spi(*old(board), *final(board)),
        same_ports(*old(board), *final(board)),
        console_appended(
            *old(board),
            *final(board),
            if enabled {
                msg_enabled(pin, p)
            } else {
                msg_disabled(pin, p)
            },
        ),
{
    if enabled {
        board.usart2.write_str("Enabled pin ");
    } else {
        board.usart2.write_str("Disabled pin ");
    }
    board.usart2.write_dec(pin as u32);
    board.usart2.write_str(" in GPIO port ");
    let letter: u8 = match p {
        Port::A => 65,
        Port::B => 66,
        Port::C => 67,
        Port::D => 68,
        Port::E => 69,
        Port::F => 70,
        Port::G => 71,
    };
    board.usart2.send_byte(letter);
    board.usart2.write_str("\r\n");
    proof {
        if enabled {
            assert(final(board).usart2.sent@ =~= old(board).usart2.sent@ + msg_enabled(pin, p));
        } else {
            assert(final(board).usart2.sent@ =~= old(board).usart2.sent@ + msg_disabled(pin, p));
        }
    }
}

/// Print the report after a mode was programmed, touching nothing else.
fn print_mode_report(board: &mut Board, m: PinMode, pin: u8, p: Port)
    requires
        old(board).usart2.wf(),
    ensures
        same_infra(*old(board), *final(board)),
        same_spi(*old(board), *final(board)),
        same_ports(*old(board), *final(board)),
        console_appended(*old(board), *final(board), msg_mode_set(m, pin, p)),
{
    board.usart2.write_str("Mode set to ");
    match m {
        PinMode::Analog => board.usart2.write_str("Analog"),
        PinMode::InFloat => board.usart2.write_str("InFloat"),
        PinMode::InPP => board.usart2.write_str("InPP"),
        PinMode::OutPP => board.usart2.write_str("OutPP"),
        PinMode::OutDrain => board.usart2.write_str("OutDrain"),
        PinMode::OutAltPP => board.usart2.write_str("OutAltPP"),
        PinMode::OutAltDrain => board.usart2.write_str("OutAltDrain"),
    }
    board.usart2.write_str(" for pin ");
    board.usart2.write_dec(pin as u32);
    board.usart2.write_str(" in GPIO port ");
    let letter: u8 = match p {
        Port::A => 65,
        Port::B => 66,
        Port::C => 67,
        Port::D => 68,
        Port::E => 69,
        Port::F => 70,
        Port::G => 71,
    };
    board.usart2.send_byte(letter);
    board.usart2.write_str("\r\n");
    proof {
        assert(final(board).usart2.sent@ =~= old(board).usart2.sent@ + msg_mode_set(m, pin, p));
    }
}

/// Drive one pin of the named port high.
fn port_enable(board: &mut Board, p: Port, pin: u8)
    requires
        pin < 16,
    ensures
        port_of(*final(board), p) == (Gpio {
            bsrr: 1u32 << pin,
            odr: port_of(*old(board), p).odr | (1u32 << pin),
            ..port_of(*old(board), p)
        }),
        same_ports_except(*old(board), *final(board), p),
        same_infra(*old(board), *final(board)),
        same_spi(*old(board), *final(board)),
        final(board).usart2 == old(board).usart2,
{
    match p {
        Port::A => board.gpioa.enable_pin(pin),
        Port::B => board.gpiob.enable_pin(pin),
        Port::C => board.gpioc.enable_pin(pin),
        Port::D => board.gpiod.enable_pin(pin),
        Port::E => board.gpioe.enable_pin(pin),
        Port::F => board.gpiof.enable_pin(pin),
        Port::G => board.gpiog.enable_pin(pin),
    }
}

/// Drive one pin of the named port low.
fn port_disable(board: &mut Board, p: Port, pin: u8)
    requires
        pin < 16,
    ensures
        port_of(*final(board), p) == (Gpio {
            bsrr: 1u32 << ((16 + pin) as u32),
            odr: port_of(*old(board), p).odr & !(1u32 << pin),
            ..port_of(*old(board), p)
        }),
        same_ports_except(*old(board), *final(board), p),
        same_infra(*old(board), *final(board)),
        same_spi(*old(board), *final(board)),
        final(board).usart2 == old(board).usart2,
{
    match p {
        Port::A => board.gpioa.disable_pin(pin),
        Port::B => board.gpiob.disable_pin(pin),
        Port::C => board.gpioc.disable_pin(pin),
        Port::D => board.gpiod.disable_pin(pin),
        Port::E => board.gpioe.disable_pin(pin),
        Port::F => board.gpiof.disable_pin(pin),
        Port::G => board.gpiog.disable_pin(pin),
    }
}

/// Program one pin's electrical mode on the named port.
fn port_set_mode(board: &mut Board, p: Port, pin: u8, mode: PinMode)
    requires
        pin < 16,
    ensures
        pin < 8 ==> port_of(*final(board), p) == (Gpio {
            crl: set_field4(port_of(*old(board), p).crl, pin as u32, mode_bits(mode)),
            ..port_of(*old(board), p)
        }),
        pin >= 8 ==> port_of(*final(board), p) == (Gpio {
            crh: set_field4(port_of(*old(board), p).crh, (pin - 8) as u32, mode_bits(mode)),
            ..port_of(*old(board), p)
        }),
        same_ports_except(*old(board), *final(board), p),
        same_infra(*old(board), *final(board)),
        same_spi(*old(board), *final(board)),
        final(board).usart2 == old(board).usart2,
{
    match p {
        Port::A => board.gpioa.set_pin_mode(pin, mode),
        Port::B => board.gpiob.set_pin_mode(pin, mode),
        Port::C => board.gpioc.set_pin_mode(pin, mode),
        Port::D => board.gpiod.set_pin_mode(pin, mode),
        Port::E => board.gpioe.set_pin_mode(pin, mode),
        Port::F => board.gpiof.set_pin_mode(pin, mode),
        Port::G => board.gpiog.set_pin_mode(pin, mode),
    }
}

/// What the gpio command's arguments mean: a malformed prefix answered
/// with the general usage lines, a malformed mode answered with the mode
/// usage line, or a validated operation on a port and pin.
pub enum GpioParse {
    BadSyntax,
    BadMode,
    SetPin(Port, u8),
    ClearPin(Port, u8),
    SetMode(Port, u8, PinMode),
}

/// Parse the gpio command's arguments: the operation word, the port
/// letter, the pin (decimal, at most 15), and for the mode operation the
/// mode word; the first malformed piece decides the answer.
pub open spec fn parse_gpio(args: Seq<Seq<char>>) -> GpioParse {
    if args.len() < 1 || !(args[0] == "set"@ || args[0] == "clear"@ || args[0] == "mode"@) {
        GpioParse::BadSyntax
    } else if args.len() < 2 || spec_parse_port(args[1]) is None {
        GpioParse::BadSyntax
    } else if args.len() < 3 || spec_parse_u8_dec(args[2]) is None {
        GpioParse::BadSyntax
    } else {
        let p = spec_parse_port(args[1]).unwrap();
        let pin = spec_parse_u8_dec(args[2]).unwrap();
        if pin > 15 {
            GpioParse::BadSyntax
        } else if args[0] == "set"@ {
            GpioParse::SetPin(p, pin)
        } else if args[0] == "clear"@ {
            GpioParse::ClearPin(p, pin)
        } else if args.len() < 4 || spec_parse_mode(args[3]) is None {
            GpioParse::BadMode
        } else {
            GpioParse::SetMode(p, pin, spec_parse_mode(args[3]).unwrap())
        }
    }
}

/// What the gpio command does: the parsed operation's register effect on
/// exactly the addressed port and its console report, or a usage answer
/// and no hardware action.
pub open spec fn gpio_cmd_spec(args: Seq<Seq<char>>, pre: Board, post: Board) -> bool {
    &&& same_infra(pre, post)
    &&& same_spi(pre, post)
    &&& match parse_gpio(args) {
        GpioParse::BadSyntax => same_ports(pre, post) && console_appended(
            pre,
            post,
            msg_gpio_usage(),
        ),
        GpioParse::BadMode => same_ports(pre, post) && console_appended(
            pre,
            post,
            msg_gpio_mode_usage(),
        ),
        GpioParse::SetPin(p, pin) => same_ports_except(pre, post, p) && port_of(post, p) == (Gpio {
            bsrr: 1u32 << pin,
            odr: port_of(pre, p).odr | (1u32 << pin),
            ..port_of(pre, p)
        }) && console_appended(pre, post, msg_enabled(pin, p)),
        GpioParse::ClearPin(p, pin) => same_ports_except(pre, post, p) && port_of(post, p) == (Gpio {
            bsrr: 1u32 << ((16 + pin) as u32),
            odr: port_of(pre, p).odr & !(1u32 << pin),
            ..port_of(pre, p)
        }) && console_appended(pre, post, msg_disabled(pin, p)),
        GpioParse::SetMode(p, pin, m) => same_ports_except(pre, post, p) && (pin < 8 ==> port_of(
            post,
            p,
        ) == (Gpio { crl: set_field4(port_of(pre, p).crl, pin as u32, mode_bits(m)), ..port_of(pre, p) }))
            && (pin >= 8 ==> port_of(post, p) == (Gpio {
            crh: set_field4(port_of(pre, p).crh, (pin - 8) as u32, mode_bits(m)),
            ..port_of(pre, p)
        })) && console_appended(pre, post, msg_mode_set(m, pin, p)),
    }
}

/// Drive, release or reconfigure one pin of one port, as the arguments
/// say, reporting over the console; any malformed argument is answered
/// with a usage line and leaves the hardware alone.
pub fn gpio(board: &mut Board, args: &Vec<&str>)
    requires
        old(board).usart2.wf(),
    ensures
        gpio_cmd_spec(args@.map_values(|t: &str| t@), *old(board), *final(board)),
{
    let ghost vargs = args@.map_values(|t: &str| t@);
    if args.len() < 1 {
        print_gpio_usage(board);
        return ;
    }
    let op = args[0];
    let is_set = str_eq(op, "set");
    let is_clear = str_eq(op, "clear");
    let is_mode = str_eq(op, "mode");
    if !(is_set || is_clear || is_mode) {
        print_gpio_usage(board);
        return ;
    }
    if args.len() < 2 {
        print_gpio_usage(board);
        return ;
    }
    let p = match parse_port(args[1]) {
        Some(p) => p,
        None => {
            print_gpio_usage(board);
            return ;
        },
    };
    if args.len() < 3 {
        print_gpio_usage(board);
        return ;
    }
    let pin = match parse_u8_dec(args[2]) {
        Some(pin) => pin,
        None => {
            print_gpio_usage(board);
            return ;
        },
    };
    if pin > 15 {
        print_gpio_usage(board);
        return ;
    }
    if is_set {
        port_enable(board, p, pin);
        print_pin_report(board, true, pin, p);
    } else if is_clear {
        port_disable(board, p, pin);
        print_pin_report(board, false, pin, p);
    } else {
        if args.len() < 4 {
            print_usage(
                board,
                "Usage: gpio <mode> <A> <0-15> <analog|infloat|inpp|outpp|outdrain|outaltpp|outaltdrain>\r\n",
            );
            return ;
        }
        let m = match parse_mode(args[3]) {
            Some(m) => m,
            None => {
                print_usage(
                    board,
                    "Usage: gpio <mode> <A> <0-15> <analog|infloat|inpp|outpp|outdrain|outaltpp|outaltdrain>\r\n",
                );
                return ;
            },
        };
        port_set_mode(board, p, pin, m);
        print_mode_report(board, m, pin, p);
    }
}

/// What the spi command's arguments mean: a validated byte for bus 1, or
/// a usage answer.
pub enum SpiParse {
    Usage,
    Xfer(u8),
}

/// Parse the spi command's arguments: the bus selector, which must be 1,
/// then the byte to send in hexadecimal.
pub open spec fn parse_spi(args: Seq<Seq<char>>) -> SpiParse {
    if args.len() < 1 || args[0] != "1"@ {
        SpiParse::Usage
    } else if args.len() < 2 || spec_parse_u8_hex(args[1]) is None {
        SpiParse::Usage
    } else {
        SpiParse::Xfer(spec_parse_u8_hex(args[1]).unwrap())
    }
}

/// What the spi command does: one full-duplex exchange on bus 1 and a
/// report of the byte that came back, or a usage answer and no exchange.
pub open spec fn spi_cmd_spec(args: Seq<Seq<char>>, pre: Board, post: Board) -> bool {
    &&& same_infra(pre, post)
    &&& same_ports(pre, post)
    &&& match parse_spi(args) {
        SpiParse::Usage => same_spi(pre, post) && console_appended(pre, post, msg_spi_usage()),
        SpiParse::Xfer(v) => {
            let r = if pre.spi1.miso@.len() > 0 {
                pre.spi1.miso@[0]
            } else {
                0u8
            };
            &&& post.spi1.base == pre.spi1.base
            &&& post.spi1.mosi@ == pre.spi1.mosi@.push(v)
            &&& post.spi1.miso@ == (if pre.spi1.miso@.len() > 0 {
                pre.spi1.miso@.drop_first()
            } else {
                pre.spi1.miso@
            })
            &&& post.spi1.regs == (SpiRegs { dr: r as u32, ..pre.spi1.regs })
            &&& console_appended(pre, post, msg_returned(r))
        },
    }
}

/// Exchange one byte on SPI bus 1 and report, in hexadecimal, the byte
/// the device shifted back; any malformed argument is answered with a
/// usage line and performs no exchange.
pub fn spi(board: &mut Board, args: &Vec<&str>)
    requires
        old(board).usart2.wf(),
        old(board).spi1.wf(),
    ensures
        spi_cmd_spec(args@.map_values(|t: &str| t@), *old(board), *final(board)),
{
    if args.len() < 1 || !str_eq(args[0], "1") {
        print_usage(board, "Usage: spi <1> <output value>\r\n");
        return ;
    }
    if args.len() < 2 {
        print_usage(board, "Usage: spi <1> <output value>\r\n");
        return ;
    }
    let value = match parse_u8_hex(args[1]) {
        Some(v) => v,
        None => {
            print_usage(board, "Usage: spi <1> <output value>\r\n");
            return ;
        },
    };
    let input_value = board.spi1.send_recv_byte(value);
    board.usart2.write_str("Returned: ");
    board.usart2.write_hex_byte(input_value);
    board.usart2.write_str("\r\n");
    proof {
        assert(final(board).usart2.sent@ =~= old(board).usart2.sent@ + msg_returned(input_value));
    }
}

/// What the mcp command's arguments mean: a validated register write, or
/// a usage answer.
pub enum McpParse {
    Usage,
    Write(u8, u8),
}

/// Parse the mcp command's arguments: the operation word, which must be
/// "write", then the register and the value, both in hexadecimal.
pub open spec fn parse_mcp(args: Seq<Seq<char>>) -> McpParse {
    if args.len() < 1 || args[0] != "write"@ {
        McpParse::Usage
    } else if args.len() < 2 || spec_parse_u8_hex(args[1]) is None {
        McpParse::Usage
    } else if args.len() < 3 || spec_parse_u8_hex(args[2]) is None {
        McpParse::Usage
    } else {
        McpParse::Write(spec_parse_u8_hex(args[1]).unwrap(), spec_parse_u8_hex(args[2]).unwrap())
    }
}

/// What the mcp command does: one three-byte register write over SPI bus
/// 1 with chip select driven around it and nothing reported, or a usage
/// answer and no transaction.
pub open spec fn mcp_cmd_spec(args: Seq<Seq<char>>, pre: Board, post: Board) -> bool {
    &&& same_infra(pre, post)
    &&& match parse_mcp(args) {
        McpParse::Usage => same_ports(pre, post) && same_spi(pre, post) && console_appended(
            pre,
            post,
            msg_mcp_usage(),
        ),
        McpParse::Write(reg, value) => {
            &&& same_ports_except(pre, post, Port::C)
            &&& port_of(post, Port::C) == (Gpio {
                bsrr: 1,
                odr: port_of(pre, Port::C).odr | 1,
                ..port_of(pre, Port::C)
            })
            &&& post.spi1.base == pre.spi1.base
            &&& post.spi1.mosi@ == pre.spi1.mosi@ + seq![0x40u8, reg, value]
            &&& post.spi1.miso@ == pre.spi1.miso@.skip(
                if pre.spi1.miso@.len() < 3 {
                    pre.spi1.miso@.len() as int
                } else {
                    3
                },
            )
            &&& post.spi1.regs == (SpiRegs { dr: post.spi1.regs.dr, ..pre.spi1.regs })
            &&& post.usart2 == pre.usart2
        },
    }
}

/// Write one register of the SPI-attached I/O expander; any malformed
/// argument is answered with a usage line and performs no transaction. A
/// successful write reports nothing.
pub fn mcp(board: &mut Board, args: &Vec<&str>)
    requires
        old(board).usart2.wf(),
        old(board).spi1.wf(),
    ensures
        mcp_cmd_spec(args@.map_values(|t: &str| t@), *old(board), *final(board)),
{
    if args.len() < 1 || !str_eq(args[0], "write") {
        print_usage(board, "Usage: mcp write <reg> <value>\r\n");
        return ;
    }
    if args.len() < 2 {
        print_usage(board, "Usage: mcp write <reg> <value>\r\n");
        return ;
    }
    let reg = match parse_u8_hex(args[1]) {
        Some(v) => v,
        None => {
            print_usage(board, "Usage: mcp write <reg> <value>\r\n");
            return ;
        },
    };
    if args.len() < 3 {
        print_usage(board, "Usage: mcp write <reg> <value>\r\n");
        return ;
    }
    let value = match parse_u8_hex(args[2]) {
        Some(v) => v,
        None => {
            print_usage(board, "Usage: mcp write <reg> <value>\r\n");
            return ;
        },
    };
    mcp23s08::write_reg(&mut board.spi1, &mut board.gpioc, reg, value);
}

/// What the loadb command does: hand back the parsed load address for the
/// raw receive loop that must run outside this model, or answer with a
/// usage line; the board is untouched either way beyond the console.
pub open spec fn loadb_cmd_spec(
    args: Seq<Seq<char>>,
    pre: Board,
    post: Board,
    load: Option<i32>,
) -> bool {
    &&& same_infra(pre, post)
    &&& same_ports(pre, post)
    &&& same_spi(pre, post)
    &&& if args.len() < 1 || spec_parse_i32_hex(args[0]) is None {
        console_appended(pre, post, msg_loadb_usage()) && load is None
    } else {
        post.usart2 == pre.usart2 && load == spec_parse_i32_hex(args[0])
    }
}

/// Parse the load address of a binary download. Receiving the bytes and
/// storing them at that raw address cannot happen inside this model; the
/// caller owning the real memory does it with the address handed back.
pub fn loadb(board: &mut Board, args: &Vec<&str>) -> (load: Option<i32>)
    requires
        old(board).usart2.wf(),
    ensures
        loadb_cmd_spec(args@.map_values(|t: &str| t@), *old(board), *final(board), load),
{
    if args.len() < 1 {
        print_usage(board, "Usage: loadb <address>\r\n");
        return None;
    }
    match parse_i32_hex(args[0]) {
        Some(address) => Some(address),
        None => {
            print_usage(board, "Usage: loadb <address>\r\n");
            None
        },
    }
}

/// How long the blink demonstration holds its pin high, in busy-wait
/// iterations.
pub const BLINK_DELAY: u32 = 1_000_000;

/// Burn a fixed number of iterations: the blink demonstration's delay.
fn delay(count: u32) {
    let mut i: u32 = 0;
    while i < count
        invariant
            i <= count,
        decreases count - i,
    {
        i += 1;
    }
}

/// What the blink command does: the demonstration pin of port A is driven
/// high, held for the fixed delay, and driven low again; nothing is
/// reported.
pub open spec fn blink_cmd_spec(pre: Board, post: Board) -> bool {
    &&& same_infra(pre, post)
    &&& same_spi(pre, post)
    &&& same_ports_except(pre, post, Port::A)
    &&& port_of(post, Port::A) == (Gpio {
        bsrr: 1u32 << ((16 + 5u8) as u32),
        odr: (port_of(pre, Port::A).odr | (1u32 << 5u8)) & !(1u32 << 5u8),
        ..port_of(pre, Port::A)
    })
    &&& post.usart2 == pre.usart2
}

/// Drive the demonstration pin of port A high, busy-wait the fixed delay,
/// and drive it low again.
pub fn blink(board: &mut Board)
    ensures
        blink_cmd_spec(*old(board), *final(board)),
{
    board.gpioa.enable_pin(5);
    delay(BLINK_DELAY);
    board.gpioa.disable_pin(5);
}

/// What one console line does: the line is cut at its first NUL and split
/// on spaces; the first token names the command, the rest are its
/// arguments; an unregistered name is echoed back as unknown.
pub open spec fn process_spec(line: Seq<char>, pre: Board, post: Board, load: Option<i32>) -> bool {
    let toks = spec_split(before_nul(line));
    let name = toks[0];
    let rest = toks.drop_first();
    match spec_lookup(name) {
        None => same_infra(pre, post) && same_ports(pre, post) && same_spi(pre, post)
            && console_appended(pre, post, msg_unknown(name)) && load is None,
        Some(Command::Gpio) => gpio_cmd_spec(rest, pre, post) && load is None,
        Some(Command::Spi) => spi_cmd_spec(rest, pre, post) && load is None,
        Some(Command::Mcp) => mcp_cmd_spec(rest, pre, post) && load is None,
        Some(Command::Blink) => blink_cmd_spec(pre, post) && load is None,
        Some(Command::Loadb) => loadb_cmd_spec(rest, pre, post, load),
    }
}

/// Interpret one console line: look its first token up in the command
/// table and run the handler on the remaining tokens, or echo the unknown
/// name. A requested binary download is handed back for the caller to
/// run.
pub fn process_line(board: &mut Board, line: &str) -> (load: Option<i32>)
    requires
        old(board).usart2.wf(),
        old(board).spi1.wf(),
        line.is_ascii(),
    ensures
        process_spec(line@, *old(board), *final(board), load),
{
    let trimmed = trim_at_nul(line);
    let tokens = split_spaces(trimmed);
    let command = tokens[0];
    let mut args: Vec<&str> = Vec::new();
    let mut k: usize = 1;
    while k < tokens.len()
        invariant
            1 <= k <= tokens@.len(),
            args@ =~= tokens@.subrange(1, k as int),
        decreases tokens@.len() - k,
    {
        args.push(tokens[k]);
        k += 1;
    }
    proof {
        let toks = spec_split(before_nul(line@));
        assert(tokens@.map_values(|t: &str| t@) == toks);
        assert(command@ == toks[0]);
        assert(args@.map_values(|t: &str| t@) =~= toks.drop_first());
    }
    match lookup_command(command) {
        Some(Command::Gpio) => {
            gpio(board, &args);
            None
        },
        Some(Command::Spi) => {
            spi(board, &args);
            None
        },
        Some(Command::Mcp) => {
            mcp(board, &args);
            None
        },
        Some(Command::Blink) => {
            blink(board);
            None
        },
        Some(Command::Loadb) => loadb(board, &args),
        None => {
            board.usart2.write_str("Unknown command: ");
            board.usart2.write_str(command);
            board.usart2.write_str("\r\n");
            proof {
                assert(final(board).usart2.sent@ =~= old(board).usart2.sent@ + msg_unknown(
                    command@,
                ));
            }
            None
        },
    }
}

} // verus!
