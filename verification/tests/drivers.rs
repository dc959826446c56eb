use stm32_console::board::Board;
use stm32_console::gpio::{Gpio, PinMode, PinSpeed};
use stm32_console::i2c::I2C;
use stm32_console::mcp23s08;
use stm32_console::mmio;
use stm32_console::rcc;
use stm32_console::rcc::{Clock, Flash, Periph, Rcc};
use stm32_console::spi::SPI;
use stm32_console::timer::Timer;
use stm32_console::usart::{Baudrate, Usart, Usart_trait};

#[test]
fn mmio_primitives() {
    let mut reg: u32 = 0;
    mmio::write(&mut reg, 0xdead_beef);
    assert_eq!(mmio::read(&reg), 0xdead_beef);
    mmio::set_bit(&mut reg, 0x0000_0010);
    assert_eq!(reg, 0xdead_beff);
    mmio::unset_bits(&mut reg, 0x0000_00ff);
    assert_eq!(reg, 0xdead_be00);
    mmio::set_bits(&mut reg, 0x3);
    assert_eq!(reg, 0xdead_be03);
    mmio::write_u8(&mut reg, 0x7a);
    assert_eq!(reg, 0xdead_be7a);
}

#[test]
fn pin_set_is_single_bsrr_write() {
    let mut port = Gpio::new();
    port.enable_pin(5);
    assert_eq!(port.bsrr, 1 << 5);
    assert_eq!(port.odr, 1 << 5);
    port.enable_pin(3);
    assert_eq!(port.bsrr, 1 << 3);
    assert_eq!(port.odr, (1 << 5) | (1 << 3));
    port.disable_pin(5);
    assert_eq!(port.bsrr, 1 << 21);
    assert_eq!(port.odr, 1 << 3);
}

#[test]
fn pin_enable_then_disable_nets_low() {
    for pin in 0..16u8 {
        let mut port = Gpio::new();
        port.enable_pin(pin);
        port.disable_pin(pin);
        assert_eq!(port.odr & (1 << pin), 0);
        let mut port2 = Gpio::new();
        port2.disable_pin(pin);
        port2.enable_pin(pin);
        assert_eq!(port2.odr & (1 << pin), 1 << pin);
    }
}

#[test]
fn pin_mode_touches_only_its_nibble() {
    let mut port = Gpio::new();
    port.set_pin_mode(3, PinMode::OutPP);
    assert_eq!(port.crl, 0x4444_2444);
    assert_eq!(port.crh, 0x4444_4444);
    port.set_pin_mode(11, PinMode::OutDrain);
    assert_eq!(port.crl, 0x4444_2444);
    assert_eq!(port.crh, 0x4444_6444);
}

#[test]
fn pin_mode_all_codes() {
    let cases = [
        (PinMode::Analog, 0b0000u32),
        (PinMode::InFloat, 0b0100),
        (PinMode::InPP, 0b1000),
        (PinMode::OutPP, 0b0010),
        (PinMode::OutDrain, 0b0110),
        (PinMode::OutAltPP, 0b1010),
        (PinMode::OutAltDrain, 0b1110),
    ];
    for (mode, code) in cases {
        let mut port = Gpio::new();
        port.set_pin_mode(0, mode);
        assert_eq!(port.crl & 0xf, code);
    }
}

#[test]
fn pin_speed_touches_low_bits_of_nibble() {
    let mut port = Gpio::new();
    port.set_pin_speed(1, PinSpeed::Max50MHz);
    assert_eq!(port.crl, 0x4444_4474);
    port.set_pin_speed(9, PinSpeed::Max10MHz);
    assert_eq!(port.crh, 0x4444_4454);
}

#[test]
fn rcc_enable_sets_one_bit() {
    let mut blk = Rcc::new();
    rcc::enable(&mut blk, Periph::apb2_gpioa);
    assert_eq!(blk.apb2enr, 1 << 2);
    rcc::enable(&mut blk, Periph::apb2_afio);
    assert_eq!(blk.apb2enr, (1 << 2) | 1);
    rcc::enable(&mut blk, Periph::apb1_usart2);
    assert_eq!(blk.apb1enr, 1 << 17);
    rcc::enable(&mut blk, Periph::apb2_spi1);
    assert_eq!(blk.apb2enr, (1 << 2) | 1 | (1 << 12));
}

#[test]
fn clock_boot_reaches_64mhz() {
    let mut blk = Rcc::new();
    let mut flash = Flash { acr: 0 };
    rcc::initialize_clocks(&mut blk, &mut flash);
    assert_eq!(blk.cfgr, 0x0038_040a);
    assert_eq!(blk.cir, 0x009f_0000);
    assert_eq!(flash.acr, 0x12);
    assert_ne!(blk.cr & (1 << 24), 0);
    assert_ne!(blk.cr & (1 << 25), 0);
    assert_eq!(rcc::get_clock_speed(&blk, Clock::SYSCLK), 64_000_000);
    assert_eq!(rcc::get_clock_speed(&blk, Clock::HCLK), 64_000_000);
    assert_eq!(rcc::get_clock_speed(&blk, Clock::PCLK1), 32_000_000);
    assert_eq!(rcc::get_clock_speed(&blk, Clock::PCLK2), 64_000_000);
}

#[test]
fn clock_speed_is_pure() {
    let blk = Rcc::new();
    assert_eq!(rcc::get_clock_speed(&blk, Clock::SYSCLK), 8_000_000);
    let first = rcc::get_clock_speed(&blk, Clock::PCLK1);
    let second = rcc::get_clock_speed(&blk, Clock::PCLK1);
    assert_eq!(first, second);
    assert_eq!(first, 8_000_000);
}

#[test]
fn usart_send_and_receive() {
    let mut port = Usart::new(0x4000_4400, Clock::PCLK1);
    port.send_byte(0x41);
    port.send_byte(0x42);
    assert_eq!(port.sent, vec![0x41, 0x42]);
    port.feed(0x31);
    port.feed(0x32);
    assert_eq!(port.get_byte(), 0x31);
    assert_eq!(port.get_byte(), 0x32);
    assert_eq!(port.recv.len(), 0);
}

#[test]
fn baud_divisor_9600_at_8mhz() {
    let blk = Rcc::new();
    let mut gpioa = Gpio::new();
    let mut port = Usart::new(0x4000_4400, Clock::PCLK1);
    port.initialize(Baudrate::_9600, &blk, &mut gpioa);
    // 8 000 000 / (16 * 9600) = 52, shifted past the 4 fractional bits.
    assert_eq!(port.regs.brr, 52 << 4);
    assert_eq!(port.regs.brr, 832);
    assert_ne!(port.regs.cr1 & (1 << 13), 0);
    assert_ne!(port.regs.cr1 & (1 << 3), 0);
    assert_ne!(port.regs.cr1 & (1 << 2), 0);
    // The console pins of port A were muxed: transmit out, receive in.
    assert_eq!(gpioa.crl, 0x4444_4a44);
}

#[test]
fn baud_divisor_115200_at_32mhz() {
    let mut blk = Rcc::new();
    let mut flash = Flash { acr: 0 };
    rcc::initialize_clocks(&mut blk, &mut flash);
    let mut gpioa = Gpio::new();
    let mut port = Usart::new(0x4000_4400, Clock::PCLK1);
    port.initialize(Baudrate::_115200, &blk, &mut gpioa);
    assert_eq!(port.regs.brr, 17 << 4);
}

#[test]
fn other_usarts_leave_pins_alone() {
    let blk = Rcc::new();
    let mut gpioa = Gpio::new();
    let mut port = Usart::new(0x4001_3800, Clock::PCLK2);
    port.initialize(Baudrate::_9600, &blk, &mut gpioa);
    assert_eq!(gpioa.crl, 0x4444_4444);
}

#[test]
fn line_editor_plain_line() {
    let mut port = Usart::new(0x4000_4400, Clock::PCLK1);
    for b in b"hi\r" {
        port.feed(*b);
    }
    let mut buf = vec![0u8; 32];
    port.get_string(&mut buf);
    assert_eq!(&buf[..2], b"hi");
    assert_eq!(buf[2], 0);
    assert_eq!(port.sent, b"hi\n\r".to_vec());
    assert_eq!(port.recv.len(), 0);
}

#[test]
fn line_editor_backspace_erases() {
    let mut port = Usart::new(0x4000_4400, Clock::PCLK1);
    for b in b"ab\x08c\n" {
        port.feed(*b);
    }
    let mut buf = vec![0u8; 32];
    port.get_string(&mut buf);
    assert_eq!(&buf[..2], b"ac");
    assert_eq!(port.sent, b"ab\x08 \x08c\n\r".to_vec());
}

#[test]
fn line_editor_full_buffer_discards() {
    let mut port = Usart::new(0x4000_4400, Clock::PCLK1);
    for b in b"abc\n" {
        port.feed(*b);
    }
    let mut buf = vec![0u8; 2];
    port.get_string(&mut buf);
    assert_eq!(buf, vec![b'a', b'b']);
    // The byte read into the full buffer was discarded, the rest left.
    assert_eq!(port.sent, b"ab".to_vec());
    assert_eq!(port.recv, vec![b'\n']);
}

#[test]
fn spi_exchange_logs_and_pops() {
    let mut bus = SPI::new(0x4001_3000);
    assert_eq!(bus.send_recv_byte(0x3c), 0);
    bus.miso.push(0xab);
    bus.miso.push(0xcd);
    assert_eq!(bus.send_recv_byte(0x01), 0xab);
    assert_eq!(bus.send_recv_byte(0x02), 0xcd);
    assert_eq!(bus.mosi, vec![0x3c, 0x01, 0x02]);
    assert_eq!(bus.regs.dr, 0xcd);
}

#[test]
fn spi_bring_up_programs_master_mode() {
    let mut bus = SPI::new(0x4001_3000);
    let mut gpioa = Gpio::new();
    let mut gpioc = Gpio::new();
    bus.initialize(&mut gpioa, &mut gpioc);
    assert_eq!(bus.regs.cr1, 0x35c);
    // Clock and data-out fast alternate outputs, data-in floating.
    assert_eq!(gpioa.crl, 0xb4b4_4444);
    // Chip select an output, driven high (inactive).
    assert_eq!(gpioc.crl, 0x4444_4442);
    assert_eq!(gpioc.odr, 1);
    assert_eq!(gpioc.bsrr, 1);
}

#[test]
fn i2c_bring_up_and_transaction() {
    let mut bus = I2C::new(0x4000_5400);
    let mut gpiob = Gpio::new();
    bus.initialize(&mut gpiob);
    assert_eq!(bus.regs.cr2, 0b001000);
    assert_eq!(bus.regs.ccr, 0x28);
    assert_eq!(bus.regs.trise, 0x9);
    assert_eq!(bus.regs.cr1, 1);
    assert_eq!(gpiob.crl, 0xff44_4444);
    bus.generate_start();
    assert_ne!(bus.regs.cr1 & (1 << 8), 0);
    assert_ne!(bus.regs.sr1 & 1, 0);
    bus.send_address(0xab);
    // 7-bit addressing: the top bit is forced clear.
    assert_eq!(bus.regs.dr, 0x2b);
    bus.send_byte(0x55);
    assert_eq!(bus.regs.dr, 0x55);
    assert_ne!(bus.regs.sr1 & (1 << 2), 0);
    bus.generate_stop();
    assert_ne!(bus.regs.cr1 & (1 << 9), 0);
    assert_ne!(bus.regs.sr1 & (1 << 4), 0);
}

#[test]
fn timer_enable_sets_counter_bit() {
    let mut tim = Timer::new(0x4000_0000);
    tim.enable(1000);
    assert_eq!(tim.cr1, 1);
}

#[test]
fn expander_write_drives_chip_select() {
    let mut bus = SPI::new(0x4001_3000);
    let mut gpioc = Gpio::new();
    mcp23s08::write_reg(&mut bus, &mut gpioc, mcp23s08::OLAT, 0x01);
    assert_eq!(bus.mosi, vec![0x40, 0x0a, 0x01]);
    assert_eq!(gpioc.odr & 1, 1);
    assert_eq!(gpioc.bsrr, 1);
}

#[test]
fn boot_reaches_operating_point() {
    let mut board = Board::new();
    stm32_console::board::boot(&mut board);
    assert_eq!(board.rcc.cfgr, 0x0038_040a);
    assert_eq!(board.rcc.apb1enr, 1 << 17);
    assert_eq!(board.rcc.apb2enr, 0x11fd);
    assert_eq!(board.usart2.regs.brr, 17 << 4);
    assert_eq!(board.spi1.regs.cr1, 0x35c);
    assert_eq!(board.spi1.mosi, vec![0x40, 0x00, 0xfe, 0x40, 0x0a, 0x01]);
    assert_eq!(board.gpioc.odr & 1, 1);
    let banner: Vec<u8> = b"Clocks initialized\r\n\
SYSCLK = 64000000 Hz\r\n\
HCLK   = 64000000 Hz\r\n\
PCLK1  = 32000000 Hz\r\n\
PCLK2  = 64000000 Hz\r\n\
\r\n\
Using MCP23S08 through SPI1 to enable port GP0\r\n\
Available command is 'gpio <set|clear> <port> <pin>'\r\n"
        .to_vec();
    assert_eq!(board.usart2.sent, banner);
}
