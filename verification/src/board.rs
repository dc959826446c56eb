//! The whole chip as one value: every peripheral register block the
//! firmware touches, each at a fixed base address for the life of the chip.
//! The command layer and the boot sequence act on a board handed to them,
//! so every diagnostic goes to the console port they were given.

use vstd::prelude::*;

use crate::gpio::{mode_bits, set_field2, set_field4, Gpio, PinMode, PinSpeed, speed_bits};
use crate::i2c::{I2cRegs, I2C, I2C1_BASE};
use crate::mcp23s08;
use crate::rcc;
use crate::rcc::{
    spec_clock_speed, Clock, Flash, Periph, Rcc, RCC_APB1ENR_USART2EN, RCC_APB2ENR_AFIOEN,
    RCC_APB2ENR_IOPAEN, RCC_APB2ENR_IOPBEN, RCC_APB2ENR_IOPCEN, RCC_APB2ENR_IOPDEN,
    RCC_APB2ENR_IOPEEN, RCC_APB2ENR_IOPFEN, RCC_APB2ENR_IOPGEN, RCC_APB2ENR_SPI1EN,
    RCC_CFGR_SWS, RCC_CFGR_SWS_PLL, RCC_CFGR_TARGET, RCC_CR_CSSON, RCC_CR_HSEBYP, RCC_CR_HSEON,
    RCC_CR_HSION, RCC_CR_PLLON, RCC_CR_PLLRDY, FLASH_ACR_PRFBTE,
};
use crate::spi::{SpiRegs, SPI, SPI1_BASE, SPI_CR1_INIT, SPI_SR_TXE};
use crate::text::{ascii_bytes, dec_bytes};
use crate::timer::{Timer, TIM2_BASE};
use crate::usart::{
    spec_brr, Baudrate, Usart, Usart_trait, UsartRegs, USART2_BASE, USART_CR1_RE, USART_CR1_TE,
    USART_CR1_UE, USART_SR_TC, USART_SR_TXE,
};

verus! {

/// The GPIO register block at reset: every pin a floating input.
pub open spec fn gpio_reset() -> Gpio {
    Gpio { crl: 0x4444_4444, crh: 0x4444_4444, idr: 0, odr: 0, bsrr: 0, brr: 0, lck: 0 }
}

/// Every register block the firmware drives.
pub struct Board {
    /// Reset and clock control.
    pub rcc: Rcc,
    /// Flash access control.
    pub flash: Flash,
    /// GPIO port A.
    pub gpioa: Gpio,
    /// GPIO port B.
    pub gpiob: Gpio,
    /// GPIO port C.
    pub gpioc: Gpio,
    /// GPIO port D.
    pub gpiod: Gpio,
    /// GPIO port E.
    pub gpioe: Gpio,
    /// GPIO port F.
    pub gpiof: Gpio,
    /// GPIO port G.
    pub gpiog: Gpio,
    /// The console serial port.
    pub usart2: Usart,
    /// The SPI bus the expander hangs off.
    pub spi1: SPI,
    /// The first I2C bus.
    pub i2c1: I2C,
    /// The general-purpose timer.
    pub tim2: Timer,
}

impl Board {
    /// The chip at power-on: every block in its reset state.
    pub fn new() -> (board: Board)
        ensures
            board.rcc == (Rcc { cr: RCC_CR_HSION, cfgr: 0, cir: 0, apb1enr: 0, apb2enr: 0 }),
            board.flash.acr == 0,
            board.gpioa == gpio_reset(),
            board.gpiob == gpio_reset(),
            board.gpioc == gpio_reset(),
            board.gpiod == gpio_reset(),
            board.gpioe == gpio_reset(),
            board.gpiof == gpio_reset(),
            board.gpiog == gpio_reset(),
            board.usart2.base == USART2_BASE,
            board.usart2.clock == Clock::PCLK1,
            board.usart2.regs == (UsartRegs {
                sr: USART_SR_TXE | USART_SR_TC,
                dr: 0,
                brr: 0,
                cr1: 0,
                cr2: 0,
                cr3: 0,
                gtpr: 0,
            }),
            board.usart2.sent@ == Seq::<u8>::empty(),
            board.usart2.recv@ == Seq::<u8>::empty(),
            board.usart2.wf(),
            board.spi1.base == SPI1_BASE,
            board.spi1.regs == (SpiRegs {
                cr1: 0,
                cr2: 0,
                sr: SPI_SR_TXE,
                dr: 0,
                crcpr: 0,
                rxcrcr: 0,
                txcrcr: 0,
                i2scfgr: 0,
                i2spr: 0,
            }),
            board.spi1.mosi@ == Seq::<u8>::empty(),
            board.spi1.miso@ == Seq::<u8>::empty(),
            board.spi1.wf(),
            board.i2c1.base == I2C1_BASE,
            board.i2c1.regs == (I2cRegs {
                cr1: 0,
                cr2: 0,
                oar1: 0,
                oar2: 0,
                dr: 0,
                sr1: 0,
                sr2: 0,
                ccr: 0,
                trise: 0,
            }),
            board.tim2 == (Timer { base: TIM2_BASE, cr1: 0 }),
    {
        Board {
            rcc: Rcc::new(),
            flash: Flash { acr: 0 },
            gpioa: Gpio::new(),
            gpiob: Gpio::new(),
            gpioc: Gpio::new(),
            gpiod: Gpio::new(),
            gpioe: Gpio::new(),
            gpiof: Gpio::new(),
            gpiog: Gpio::new(),
            usart2: Usart::new(USART2_BASE, Clock::PCLK1),
            spi1: SPI::new(SPI1_BASE),
            i2c1: I2C::new(I2C1_BASE),
            tim2: Timer::new(TIM2_BASE),
        }
    }
}

/// The clock-configuration register after boot: the target operating
/// point with the switch to the PLL reflected in the status field.
pub open spec fn boot_cfgr() -> u32 {
    RCC_CFGR_TARGET | RCC_CFGR_SWS_PLL
}

/// Everything the boot sequence prints: the clock report, one line per
/// derived node, and the expander demonstration notices.
pub open spec fn boot_banner() -> Seq<u8> {
    ascii_bytes("Clocks initialized\r\n"@) + ascii_bytes("SYSCLK = "@) + dec_bytes(
        spec_clock_speed(boot_cfgr(), Clock::SYSCLK),
    ) + ascii_bytes(" Hz\r\n"@) + ascii_bytes("HCLK   = "@) + dec_bytes(
        spec_clock_speed(boot_cfgr(), Clock::HCLK),
    ) + ascii_bytes(" Hz\r\n"@) + ascii_bytes("PCLK1  = "@) + dec_bytes(
        spec_clock_speed(boot_cfgr(), Clock::PCLK1),
    ) + ascii_bytes(" Hz\r\n"@) + ascii_bytes("PCLK2  = "@) + dec_bytes(
        spec_clock_speed(boot_cfgr(), Clock::PCLK2),
    ) + ascii_bytes(" Hz\r\n"@) + ascii_bytes("\r\n"@) + ascii_bytes(
        "Using MCP23S08 through SPI1 to enable port GP0\r\n"@,
    ) + ascii_bytes("Available command is 'gpio <set|clear> <port> <pin>'\r\n"@)
}

/// Port A after boot: the console pins muxed for the serial link, then
/// the SPI clock and data pins muxed for the bus.
pub open spec fn boot_gpioa(pre: Gpio) -> Gpio {
    Gpio {
        crl: set_field4(
            set_field2(
                set_field4(
                    set_field2(
                        set_field4(
                            set_field4(
                                set_field4(pre.crl, 2, mode_bits(PinMode::OutAltPP)),
                                3,
                                mode_bits(PinMode::InFloat),
                            ),
                            5,
                            mode_bits(PinMode::OutAltPP),
                        ),
                        5,
                        speed_bits(PinSpeed::Max50MHz),
                    ),
                    7,
                    mode_bits(PinMode::OutAltPP),
                ),
                7,
                speed_bits(PinSpeed::Max50MHz),
            ),
            6,
            mode_bits(PinMode::InFloat),
        ),
        ..pre
    }
}

/// Bring the board from power-on to its operating point: clocks to the
/// 64 MHz target, peripheral clocks gated on, the console port up at
/// 115200 baud, the SPI bus up as a master, the clock report printed, and
/// the expander's GP0 driven high through two register writes.
#[verifier::rlimit(100)]
pub fn boot(board: &mut Board)
    requires
        old(board).usart2.wf(),
        old(board).spi1.wf(),
        old(board).usart2.base == USART2_BASE,
        old(board).spi1.base == SPI1_BASE,
    ensures
        final(board).rcc.cfgr == boot_cfgr(),
        final(board).rcc.cir == 0x009f_0000,
        final(board).rcc.cr == ((((old(board).rcc.cr | RCC_CR_HSION) & !(RCC_CR_HSEON
            | RCC_CR_CSSON | RCC_CR_PLLON)) & !RCC_CR_HSEBYP) | RCC_CR_PLLON) | RCC_CR_PLLRDY,
        final(board).rcc.apb1enr == old(board).rcc.apb1enr | RCC_APB1ENR_USART2EN,
        final(board).rcc.apb2enr == old(board).rcc.apb2enr | RCC_APB2ENR_IOPAEN
            | RCC_APB2ENR_IOPBEN | RCC_APB2ENR_IOPCEN | RCC_APB2ENR_IOPDEN | RCC_APB2ENR_IOPEEN
            | RCC_APB2ENR_IOPFEN | RCC_APB2ENR_IOPGEN | RCC_APB2ENR_AFIOEN | RCC_APB2ENR_SPI1EN,
        final(board).flash.acr == (old(board).flash.acr | FLASH_ACR_PRFBTE) | 0b010,
        final(board).usart2.base == old(board).usart2.base,
        final(board).usart2.clock == old(board).usart2.clock,
        final(board).usart2.wf(),
        final(board).usart2.regs.brr == spec_brr(
            boot_cfgr(),
            old(board).usart2.clock,
            Baudrate::_115200,
        ),
        final(board).usart2.regs.cr1 == (old(board).usart2.regs.cr1 | (USART_CR1_TE
            | USART_CR1_RE)) | USART_CR1_UE,
        final(board).usart2.regs.cr2 == 0,
        final(board).usart2.sent@ == old(board).usart2.sent@ + boot_banner(),
        final(board).usart2.recv == old(board).usart2.recv,
        *final(board) == (Board {
            rcc: final(board).rcc,
            flash: final(board).flash,
            gpioa: boot_gpioa(old(board).gpioa),
            gpioc: (Gpio {
                crl: set_field4(old(board).gpioc.crl, 0, mode_bits(PinMode::OutPP)),
                bsrr: 1,
                odr: old(board).gpioc.odr | 1,
                ..old(board).gpioc
            }),
            usart2: final(board).usart2,
            spi1: final(board).spi1,
            ..*old(board)
        }),
        final(board).spi1.base == old(board).spi1.base,
        final(board).spi1.wf(),
        final(board).spi1.regs == (SpiRegs {
            cr1: SPI_CR1_INIT,
            dr: final(board).spi1.regs.dr,
            ..old(board).spi1.regs
        }),
        final(board).spi1.mosi@ == old(board).spi1.mosi@ + seq![
            0x40u8,
            0x00u8,
            0xfeu8,
            0x40u8,
            0x0au8,
            0x01u8,
        ],
        final(board).spi1.miso@ == old(board).spi1.miso@.skip(
            if old(board).spi1.miso@.len() < 6 {
                old(board).spi1.miso@.len() as int
            } else {
                6
            },
        ),
{
    rcc::initialize_clocks(&mut board.rcc, &mut board.flash);

    rcc::enable(&mut board.rcc, Periph::apb2_gpioa);
    rcc::enable(&mut board.rcc, Periph::apb2_gpiob);
    rcc::enable(&mut board.rcc, Periph::apb2_gpioc);
    rcc::enable(&mut board.rcc, Periph::apb2_gpiod);
    rcc::enable(&mut board.rcc, Periph::apb2_gpioe);
    rcc::enable(&mut board.rcc, Periph::apb2_gpiof);
    rcc::enable(&mut board.rcc, Periph::apb2_gpiog);
    rcc::enable(&mut board.rcc, Periph::apb2_afio);
    rcc::enable(&mut board.rcc, Periph::apb2_spi1);
    rcc::enable(&mut board.rcc, Periph::apb1_usart2);

    proof {
        assert(RCC_CFGR_SWS_PLL != 0b11 << 2) by (bit_vector);
    }

    // Bring the console port up on the serial link.
    board.usart2.initialize(Baudrate::_115200, &board.rcc, &mut board.gpioa);

    // Bring the SPI bus up.
    board.spi1.initialize(&mut board.gpioa, &mut board.gpioc);

    board.usart2.write_str("Clocks initialized\r\n");
    board.usart2.write_str("SYSCLK = ");
    let sysclk = rcc::get_clock_speed(&board.rcc, Clock::SYSCLK);
    board.usart2.write_dec(sysclk);
    board.usart2.write_str(" Hz\r\n");
    board.usart2.write_str("HCLK   = ");
    let hclk = rcc::get_clock_speed(&board.rcc, Clock::HCLK);
    board.usart2.write_dec(hclk);
    board.usart2.write_str(" Hz\r\n");
    board.usart2.write_str("PCLK1  = ");
    let pclk1 = rcc::get_clock_speed(&board.rcc, Clock::PCLK1);
    board.usart2.write_dec(pclk1);
    board.usart2.write_str(" Hz\r\n");
    board.usart2.write_str("PCLK2  = ");
    let pclk2 = rcc::get_clock_speed(&board.rcc, Clock::PCLK2);
    board.usart2.write_dec(pclk2);
    board.usart2.write_str(" Hz\r\n");
    board.usart2.write_str("\r\n");

    board.usart2.write_str("Using MCP23S08 through SPI1 to enable port GP0\r\n");
    // Every expander pin but GP0 an input, then GP0's output latch high.
    mcp23s08::write_reg(&mut board.spi1, &mut board.gpioc, mcp23s08::IODIR, 0xfe);
    mcp23s08::write_reg(&mut board.spi1, &mut board.gpioc, mcp23s08::OLAT, 0x01);

    board.usart2.write_str("Available command is 'gpio <set|clear> <port> <pin>'\r\n");

    proof {
        let odr0 = old(board).gpioc.odr;
        assert(((odr0 | 1) | 1) | 1 == odr0 | 1) by (bit_vector);
        assert(board.usart2.sent@ =~= old(board).usart2.sent@ + boot_banner());
        assert(board.spi1.mosi@ =~= old(board).spi1.mosi@ + seq![
            0x40u8,
            0x00u8,
            0xfeu8,
            0x40u8,
            0x0au8,
            0x01u8,
        ]);
        let m = old(board).spi1.miso@;
        let m1 = if m.len() < 3 { m.len() as int } else { 3 };
        let rest = m.skip(m1);
        let m2 = if rest.len() < 3 { rest.len() as int } else { 3 };
        assert(rest.skip(m2) =~= m.skip(m1 + m2));
        assert(board.spi1.miso@ =~= m.skip(if m.len() < 6 { m.len() as int } else { 6 }));
    }
}

} // verus!
