use stm32_console::board::Board;
use stm32_console::cmd::{lookup_command, process_line, Command};

fn fresh() -> Board {
    Board::new()
}

#[test]
fn lookup_finds_each_registered_name() {
    assert_eq!(lookup_command("gpio"), Some(Command::Gpio));
    assert_eq!(lookup_command("spi"), Some(Command::Spi));
    assert_eq!(lookup_command("mcp"), Some(Command::Mcp));
    assert_eq!(lookup_command("loadb"), Some(Command::Loadb));
}

#[test]
fn lookup_misses_everything_else() {
    assert_eq!(lookup_command(""), None);
    assert_eq!(lookup_command("GPIO"), None);
    assert_eq!(lookup_command("Gpio"), None);
    assert_eq!(lookup_command("gpi"), None);
    assert_eq!(lookup_command("gpioo"), None);
    assert_eq!(lookup_command("foobar"), None);
}

#[test]
fn gpio_set_writes_one_bsrr_bit() {
    let mut board = fresh();
    let load = process_line(&mut board, "gpio set A 5\u{0}\u{0}\u{0}");
    assert_eq!(load, None);
    assert_eq!(board.gpioa.bsrr, 1 << 5);
    assert_eq!(board.gpioa.odr, 1 << 5);
    assert_eq!(board.gpiob.bsrr, 0);
    assert_eq!(board.gpioc.bsrr, 0);
    assert_eq!(board.spi1.mosi.len(), 0);
    assert_eq!(
        board.usart2.sent,
        b"Enabled pin 5 in GPIO port A\r\n".to_vec()
    );
}

#[test]
fn gpio_clear_lower_case_port() {
    let mut board = fresh();
    board.gpiob.odr = 1 << 7;
    process_line(&mut board, "gpio clear b 7");
    assert_eq!(board.gpiob.bsrr, 1 << 23);
    assert_eq!(board.gpiob.odr, 0);
    assert_eq!(
        board.usart2.sent,
        b"Disabled pin 7 in GPIO port B\r\n".to_vec()
    );
}

#[test]
fn gpio_set_two_digit_pin() {
    let mut board = fresh();
    process_line(&mut board, "gpio set G 15");
    assert_eq!(board.gpiog.bsrr, 1 << 15);
    assert_eq!(
        board.usart2.sent,
        b"Enabled pin 15 in GPIO port G\r\n".to_vec()
    );
}

#[test]
fn gpio_mode_programs_one_nibble() {
    let mut board = fresh();
    process_line(&mut board, "gpio mode A 3 outpp");
    assert_eq!(board.gpioa.crl, 0x4444_2444);
    assert_eq!(board.gpioa.crh, 0x4444_4444);
    assert_eq!(
        board.usart2.sent,
        b"Mode set to OutPP for pin 3 in GPIO port A\r\n".to_vec()
    );
}

#[test]
fn gpio_mode_high_pin_uses_high_register() {
    let mut board = fresh();
    process_line(&mut board, "gpio mode C 12 outaltdrain");
    assert_eq!(board.gpioc.crl, 0x4444_4444);
    assert_eq!(board.gpioc.crh, 0x444e_4444);
    assert_eq!(
        board.usart2.sent,
        b"Mode set to OutAltDrain for pin 12 in GPIO port C\r\n".to_vec()
    );
}

const GPIO_USAGE: &[u8] = b"Usage: gpio <set|clear> <A|B|C|D|E|F|G> <0-15>\r\n\
Usage: gpio <mode> <A|B|C|D|E|F|G> <0-15> <analog|infloat|inpp|outpp|outdrain|outaltpp|outaltdrain>\r\n";

#[test]
fn gpio_without_arguments_prints_usage() {
    let mut board = fresh();
    process_line(&mut board, "gpio");
    assert_eq!(board.usart2.sent, GPIO_USAGE.to_vec());
    assert_eq!(board.gpioa.bsrr, 0);
}

#[test]
fn gpio_bad_operation_prints_usage() {
    let mut board = fresh();
    process_line(&mut board, "gpio toggle A 5");
    assert_eq!(board.usart2.sent, GPIO_USAGE.to_vec());
}

#[test]
fn gpio_bad_port_prints_usage() {
    let mut board = fresh();
    process_line(&mut board, "gpio set X 5");
    assert_eq!(board.usart2.sent, GPIO_USAGE.to_vec());
    assert_eq!(board.gpioa.bsrr, 0);
}

#[test]
fn gpio_pin_out_of_range_prints_usage() {
    let mut board = fresh();
    process_line(&mut board, "gpio set A 16");
    assert_eq!(board.usart2.sent, GPIO_USAGE.to_vec());
    assert_eq!(board.gpioa.bsrr, 0);
}

#[test]
fn gpio_unparsable_pin_prints_usage() {
    let mut board = fresh();
    process_line(&mut board, "gpio set A five");
    assert_eq!(board.usart2.sent, GPIO_USAGE.to_vec());
}

#[test]
fn gpio_double_space_breaks_parsing() {
    let mut board = fresh();
    process_line(&mut board, "gpio  set A 5");
    assert_eq!(board.usart2.sent, GPIO_USAGE.to_vec());
    assert_eq!(board.gpioa.bsrr, 0);
}

#[test]
fn gpio_bad_mode_prints_mode_usage() {
    let mut board = fresh();
    process_line(&mut board, "gpio mode A 3 sideways");
    assert_eq!(
        board.usart2.sent,
        b"Usage: gpio <mode> <A> <0-15> <analog|infloat|inpp|outpp|outdrain|outaltpp|outaltdrain>\r\n"
            .to_vec()
    );
    assert_eq!(board.gpioa.crl, 0x4444_4444);
}

#[test]
fn spi_exchange_reports_hex() {
    let mut board = fresh();
    board.spi1.miso.push(0xab);
    process_line(&mut board, "spi 1 3c");
    assert_eq!(board.spi1.mosi, vec![0x3c]);
    assert_eq!(board.spi1.miso.len(), 0);
    assert_eq!(board.usart2.sent, b"Returned: ab\r\n".to_vec());
}

#[test]
fn spi_single_digit_report() {
    let mut board = fresh();
    board.spi1.miso.push(0x05);
    process_line(&mut board, "spi 1 ff");
    assert_eq!(board.usart2.sent, b"Returned: 5\r\n".to_vec());
}

#[test]
fn spi_idle_line_reads_zero() {
    let mut board = fresh();
    process_line(&mut board, "spi 1 00");
    assert_eq!(board.usart2.sent, b"Returned: 0\r\n".to_vec());
}

#[test]
fn spi_wrong_bus_prints_usage() {
    let mut board = fresh();
    process_line(&mut board, "spi 2 3c");
    assert_eq!(board.usart2.sent, b"Usage: spi <1> <output value>\r\n".to_vec());
    assert_eq!(board.spi1.mosi.len(), 0);
}

#[test]
fn spi_missing_value_prints_usage() {
    let mut board = fresh();
    process_line(&mut board, "spi 1");
    assert_eq!(board.usart2.sent, b"Usage: spi <1> <output value>\r\n".to_vec());
}

#[test]
fn spi_bad_value_prints_usage() {
    let mut board = fresh();
    process_line(&mut board, "spi 1 zz");
    assert_eq!(board.usart2.sent, b"Usage: spi <1> <output value>\r\n".to_vec());
    assert_eq!(board.spi1.mosi.len(), 0);
}

#[test]
fn mcp_write_runs_one_transaction() {
    let mut board = fresh();
    process_line(&mut board, "mcp write 0a ff");
    assert_eq!(board.spi1.mosi, vec![0x40, 0x0a, 0xff]);
    assert_eq!(board.gpioc.odr & 1, 1);
    assert_eq!(board.gpioc.bsrr, 1);
    assert_eq!(board.usart2.sent.len(), 0);
}

#[test]
fn mcp_bad_operation_prints_usage() {
    let mut board = fresh();
    process_line(&mut board, "mcp read 0a");
    assert_eq!(board.usart2.sent, b"Usage: mcp write <reg> <value>\r\n".to_vec());
    assert_eq!(board.spi1.mosi.len(), 0);
}

#[test]
fn mcp_missing_value_prints_usage() {
    let mut board = fresh();
    process_line(&mut board, "mcp write 0a");
    assert_eq!(board.usart2.sent, b"Usage: mcp write <reg> <value>\r\n".to_vec());
}

#[test]
fn loadb_hands_back_the_address() {
    let mut board = fresh();
    let load = process_line(&mut board, "loadb 20000000");
    assert_eq!(load, Some(0x2000_0000));
    assert_eq!(board.usart2.sent.len(), 0);
}

#[test]
fn loadb_negative_address() {
    let mut board = fresh();
    assert_eq!(process_line(&mut board, "loadb -1"), Some(-1));
}

#[test]
fn loadb_without_address_prints_usage() {
    let mut board = fresh();
    let load = process_line(&mut board, "loadb");
    assert_eq!(load, None);
    assert_eq!(board.usart2.sent, b"Usage: loadb <address>\r\n".to_vec());
}

#[test]
fn loadb_bad_address_prints_usage() {
    let mut board = fresh();
    assert_eq!(process_line(&mut board, "loadb wat"), None);
    assert_eq!(board.usart2.sent, b"Usage: loadb <address>\r\n".to_vec());
}

#[test]
fn unknown_command_is_echoed() {
    let mut board = fresh();
    let load = process_line(&mut board, "foobar\u{0}\u{0}");
    assert_eq!(load, None);
    assert_eq!(board.usart2.sent, b"Unknown command: foobar\r\n".to_vec());
    assert_eq!(board.gpioa.bsrr, 0);
    assert_eq!(board.gpioa.odr, 0);
    assert_eq!(board.spi1.mosi.len(), 0);
    assert_eq!(board.rcc.apb2enr, 0);
}

#[test]
fn empty_line_is_an_unknown_command() {
    let mut board = fresh();
    process_line(&mut board, "");
    assert_eq!(board.usart2.sent, b"Unknown command: \r\n".to_vec());
}

#[test]
fn line_is_cut_at_first_nul() {
    let mut board = fresh();
    process_line(&mut board, "gpio set A 5\u{0}garbage after");
    assert_eq!(board.gpioa.bsrr, 1 << 5);
    assert_eq!(
        board.usart2.sent,
        b"Enabled pin 5 in GPIO port A\r\n".to_vec()
    );
}

#[test]
fn blink_toggles_the_demo_pin() {
    let mut board = fresh();
    let load = process_line(&mut board, "blink");
    assert_eq!(load, None);
    assert_eq!(board.gpioa.bsrr, 1 << 21);
    assert_eq!(board.gpioa.odr & (1 << 5), 0);
    assert_eq!(board.usart2.sent.len(), 0);
}

#[test]
fn lookup_finds_blink() {
    assert_eq!(lookup_command("blink"), Some(Command::Blink));
    assert_eq!(lookup_command("BLINK"), None);
}
