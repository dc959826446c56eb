//! The reset-and-clock-control block: oscillator/PLL configuration, per-
//! peripheral clock enables, and the derivation of the clock tree's
//! frequencies from the live register contents.
//!
//! The boot sequence drives the block from its power-on state to the target
//! operating point (64 MHz system clock from the 8 MHz internal oscillator
//! through a divide-by-2, multiply-by-16 PLL path). The two busy-waits poll a
//! modeled device whose PLL locks, and whose clock switch takes effect, as
//! soon as they are requested.

use vstd::prelude::*;

use crate::conf::{HSE_BASE_FREQUENCY, HSI_BASE_FREQUENCY};
use crate::mmio;

verus! {

/// Internal-oscillator enable bit of the control register.
pub const RCC_CR_HSION: u32 = 1 << 1;

/// External-oscillator enable bit.
pub const RCC_CR_HSEON: u32 = 1 << 16;

/// Clock-security-system enable bit.
pub const RCC_CR_CSSON: u32 = 1 << 19;

/// External-oscillator bypass bit.
pub const RCC_CR_HSEBYP: u32 = 1 << 18;

/// PLL enable bit.
pub const RCC_CR_PLLON: u32 = 1 << 24;

/// PLL ready (locked) status bit.
pub const RCC_CR_PLLRDY: u32 = 1 << 25;

/// System-clock source select field of the configuration register.
pub const RCC_CFGR_SW: u32 = 0b11;

/// System-clock source status field: which source actually drives SYSCLK.
pub const RCC_CFGR_SWS: u32 = 0b11 << 2;

/// Status value: internal oscillator drives the system clock.
pub const RCC_CFGR_SWS_HSI: u32 = 0b00 << 2;

/// Status value: external oscillator drives the system clock.
pub const RCC_CFGR_SWS_HSE: u32 = 0b01 << 2;

/// Status value: the PLL drives the system clock.
pub const RCC_CFGR_SWS_PLL: u32 = 0b10 << 2;

/// AHB prescaler field.
pub const RCC_CFGR_HPRE: u32 = 0b1111 << 4;

/// APB1 prescaler field.
pub const RCC_CFGR_PPRE1: u32 = 0b111 << 8;

/// APB2 prescaler field.
pub const RCC_CFGR_PPRE2: u32 = 0b111 << 11;

/// PLL input source select bit.
pub const RCC_CFGR_PLLSRC: u32 = 0b1 << 16;

/// PLL multiplier field; the hardware encodes multiplier N as N - 2.
pub const RCC_CFGR_PLLMUL: u32 = 0b1111 << 18;

/// Enable bit of USART2 in the APB1 enable register.
pub const RCC_APB1ENR_USART2EN: u32 = 1 << 17;

/// Enable bit of the alternate-function block in the APB2 enable register.
pub const RCC_APB2ENR_AFIOEN: u32 = 1 << 0;

/// Enable bit of GPIO port A.
pub const RCC_APB2ENR_IOPAEN: u32 = 1 << 2;

/// Enable bit of GPIO port B.
pub const RCC_APB2ENR_IOPBEN: u32 = 1 << 3;

/// Enable bit of GPIO port C.
pub const RCC_APB2ENR_IOPCEN: u32 = 1 << 4;

/// Enable bit of GPIO port D.
pub const RCC_APB2ENR_IOPDEN: u32 = 1 << 5;

/// Enable bit of GPIO port E.
pub const RCC_APB2ENR_IOPEEN: u32 = 1 << 6;

/// Enable bit of GPIO port F.
pub const RCC_APB2ENR_IOPFEN: u32 = 1 << 7;

/// Enable bit of GPIO port G.
pub const RCC_APB2ENR_IOPGEN: u32 = 1 << 8;

/// Enable bit of SPI1.
pub const RCC_APB2ENR_SPI1EN: u32 = 1 << 12;

/// Flash prefetch-buffer enable bit of the access-control register.
pub const FLASH_ACR_PRFBTE: u32 = 0b1 << 4;

/// The register block of the reset-and-clock-control peripheral.
pub struct Rcc {
    /// Control register: oscillator and PLL enables and ready flags.
    pub cr: u32,
    /// Clock-configuration register: source select, prescalers, PLL setup.
    pub cfgr: u32,
    /// Clock-interrupt register.
    pub cir: u32,
    /// APB1 peripheral clock-enable register.
    pub apb1enr: u32,
    /// APB2 peripheral clock-enable register.
    pub apb2enr: u32,
}

/// The flash-interface access-control register.
pub struct Flash {
    /// Access control: wait-state latency and prefetch buffer.
    pub acr: u32,
}

/// A peripheral whose clock can be gated on, a closed set.
#[allow(non_camel_case_types)]
#[derive(Debug, Clone, Copy)]
pub enum Periph {
    apb1_usart2,
    apb2_afio,
    apb2_gpioa,
    apb2_gpiob,
    apb2_gpioc,
    apb2_gpiod,
    apb2_gpioe,
    apb2_gpiof,
    apb2_gpiog,
    apb2_spi1,
}

/// A node of the clock tree whose frequency can be derived.
#[derive(Debug, Clone, Copy)]
pub enum Clock {
    SYSCLK,
    HCLK,
    PCLK1,
    PCLK2,
}

/// Whether a peripheral's enable bit lives in the APB1 enable register
/// (otherwise it lives in the APB2 one).
pub open spec fn periph_on_apb1(periph: Periph) -> bool {
    match periph {
        Periph::apb1_usart2 => true,
        _ => false,
    }
}

/// The enable bit of a peripheral within its enable register.
pub open spec fn periph_bit(periph: Periph) -> u32 {
    match periph {
        Periph::apb1_usart2 => RCC_APB1ENR_USART2EN,
        Periph::apb2_afio => RCC_APB2ENR_AFIOEN,
        Periph::apb2_gpioa => RCC_APB2ENR_IOPAEN,
        Periph::apb2_gpiob => RCC_APB2ENR_IOPBEN,
        Periph::apb2_gpioc => RCC_APB2ENR_IOPCEN,
        Periph::apb2_gpiod => RCC_APB2ENR_IOPDEN,
        Periph::apb2_gpioe => RCC_APB2ENR_IOPEEN,
        Periph::apb2_gpiof => RCC_APB2ENR_IOPFEN,
        Periph::apb2_gpiog => RCC_APB2ENR_IOPGEN,
        Periph::apb2_spi1 => RCC_APB2ENR_SPI1EN,
    }
}

/// The control register as a responsive device settles it: the PLL-ready
/// flag tracks the PLL-enable bit (the modeled PLL locks at once).
pub open spec fn cr_settled(cr: u32) -> u32 {
    if cr & RCC_CR_PLLON != 0 {
        cr | RCC_CR_PLLRDY
    } else {
        cr & !RCC_CR_PLLRDY
    }
}

/// The configuration register as a responsive device settles it: the source
/// status field reflects the selected source (the modeled switch takes
/// effect at once).
pub open spec fn cfgr_settled(cfgr: u32) -> u32 {
    (cfgr & !RCC_CFGR_SWS) | ((cfgr & RCC_CFGR_SW) << 2)
}

/// Frequency of the system clock derived from the configuration register:
/// the selected source's frequency, where the PLL multiplies its input
/// (internal oscillator halved, or external oscillator) by the encoded
/// multiplier plus two.
pub open spec fn spec_sysclk(cfgr: u32) -> u32 {
    if cfgr & RCC_CFGR_SWS == RCC_CFGR_SWS_HSI {
        HSI_BASE_FREQUENCY
    } else if cfgr & RCC_CFGR_SWS == RCC_CFGR_SWS_HSE {
        HSE_BASE_FREQUENCY
    } else {
        (spec_pll_input(cfgr) * spec_pll_mult(cfgr)) as u32
    }
}

/// The PLL's input frequency, from its source-select bit.
pub open spec fn spec_pll_input(cfgr: u32) -> u32 {
    if cfgr & RCC_CFGR_PLLSRC == 0 {
        (HSI_BASE_FREQUENCY / 2) as u32
    } else {
        HSE_BASE_FREQUENCY
    }
}

/// The PLL's multiplier: the hardware encodes multiplier N as N - 2.
pub open spec fn spec_pll_mult(cfgr: u32) -> u32 {
    (((cfgr & RCC_CFGR_PLLMUL) >> 18) + 2) as u32
}

/// Right-shift amount the AHB prescaler encoding stands for: the top bit of
/// the field enables division, the low bits encode the shift minus one.
pub open spec fn spec_ahb_shift(cfgr: u32) -> u32 {
    let hpre = (cfgr & RCC_CFGR_HPRE) >> 4;
    ((((hpre & 0b1000) >> 3) * ((hpre & 0b111) + 1)) as u32)
}

/// Right-shift amount an APB prescaler encoding stands for.
pub open spec fn spec_apb_shift(ppre: u32) -> u32 {
    ((((ppre & 0b100) >> 2) * ((ppre & 0b11) + 1)) as u32)
}

/// Frequency of the AHB clock.
pub open spec fn spec_hclk(cfgr: u32) -> u32 {
    spec_sysclk(cfgr) >> spec_ahb_shift(cfgr)
}

/// Frequency of the APB1 clock.
pub open spec fn spec_pclk1(cfgr: u32) -> u32 {
    spec_hclk(cfgr) >> spec_apb_shift((cfgr & RCC_CFGR_PPRE1) >> 8)
}

/// Frequency of the APB2 clock.
pub open spec fn spec_pclk2(cfgr: u32) -> u32 {
    spec_hclk(cfgr) >> spec_apb_shift((cfgr & RCC_CFGR_PPRE2) >> 11)
}

/// Frequency of any clock-tree node, derived from the configuration
/// register contents alone.
pub open spec fn spec_clock_speed(cfgr: u32, clock: Clock) -> u32 {
    match clock {
        Clock::SYSCLK => spec_sysclk(cfgr),
        Clock::HCLK => spec_hclk(cfgr),
        Clock::PCLK1 => spec_pclk1(cfgr),
        Clock::PCLK2 => spec_pclk2(cfgr),
    }
}

impl Rcc {
    /// The block in its power-on state: internal oscillator on, everything
    /// else off, no prescaling.
    pub fn new() -> (rcc: Rcc)
        ensures
            rcc == (Rcc { cr: RCC_CR_HSION, cfgr: 0, cir: 0, apb1enr: 0, apb2enr: 0 }),
    {
        Rcc { cr: RCC_CR_HSION, cfgr: 0, cir: 0, apb1enr: 0, apb2enr: 0 }
    }

    /// The modeled hardware catches up with the last configuration writes:
    /// the PLL locks and the clock switch takes effect.
    fn settle(&mut self)
        ensures
            *final(self) == (Rcc {
                cr: cr_settled(old(self).cr),
                cfgr: cfgr_settled(old(self).cfgr),
                ..*old(self)
            }),
    {
        if self.cr & RCC_CR_PLLON != 0 {
            self.cr = self.cr | RCC_CR_PLLRDY;
        } else {
            self.cr = self.cr & !RCC_CR_PLLRDY;
        }
        self.cfgr = (self.cfgr & !RCC_CFGR_SWS) | ((self.cfgr & RCC_CFGR_SW) << 2);
    }
}

/// Gate on the clock of one peripheral: sets its enable bit in the APB1 or
/// APB2 enable register and touches nothing else.
pub fn enable(rcc: &mut Rcc, periph: Periph)
    ensures
        periph_on_apb1(periph) ==> *final(rcc) == (Rcc {
            apb1enr: old(rcc).apb1enr | periph_bit(periph),
            ..*old(rcc)
        }),
        !periph_on_apb1(periph) ==> *final(rcc) == (Rcc {
            apb2enr: old(rcc).apb2enr | periph_bit(periph),
            ..*old(rcc)
        }),
{
    match periph {
        Periph::apb1_usart2 => mmio::set_bit(&mut rcc.apb1enr, RCC_APB1ENR_USART2EN),
        Periph::apb2_afio => mmio::set_bit(&mut rcc.apb2enr, RCC_APB2ENR_AFIOEN),
        Periph::apb2_gpioa => mmio::set_bit(&mut rcc.apb2enr, RCC_APB2ENR_IOPAEN),
        Periph::apb2_gpiob => mmio::set_bit(&mut rcc.apb2enr, RCC_APB2ENR_IOPBEN),
        Periph::apb2_gpioc => mmio::set_bit(&mut rcc.apb2enr, RCC_APB2ENR_IOPCEN),
        Periph::apb2_gpiod => mmio::set_bit(&mut rcc.apb2enr, RCC_APB2ENR_IOPDEN),
        Periph::apb2_gpioe => mmio::set_bit(&mut rcc.apb2enr, RCC_APB2ENR_IOPEEN),
        Periph::apb2_gpiof => mmio::set_bit(&mut rcc.apb2enr, RCC_APB2ENR_IOPFEN),
        Periph::apb2_gpiog => mmio::set_bit(&mut rcc.apb2enr, RCC_APB2ENR_IOPGEN),
        Periph::apb2_spi1 => mmio::set_bit(&mut rcc.apb2enr, RCC_APB2ENR_SPI1EN),
    }
}

/// The configuration-register value the boot sequence programs: PLL source
/// internal-oscillator-halved, multiplier 16, AHB and APB2 undivided, APB1
/// halved, PLL selected as system clock.
pub const RCC_CFGR_TARGET: u32 = (0b1110 << 18) | (0b100 << 8) | 0b10;

/// Drive the clock tree from its reset state to the target operating point:
/// internal oscillator on; external oscillator, clock security and PLL off;
/// configuration and interrupts reset; PLL set to oscillator/2 x 16;
/// prescalers programmed; flash latency raised before the switch; then the
/// PLL is enabled and awaited, and the system clock switched to it and
/// awaited. Ends with the PLL locked and selected.
pub fn initialize_clocks(rcc: &mut Rcc, flash: &mut Flash)
    ensures
        *final(rcc) == (Rcc {
            cr: ((((old(rcc).cr | RCC_CR_HSION) & !(RCC_CR_HSEON | RCC_CR_CSSON | RCC_CR_PLLON))
                & !RCC_CR_HSEBYP) | RCC_CR_PLLON) | RCC_CR_PLLRDY,
            cfgr: RCC_CFGR_TARGET | RCC_CFGR_SWS_PLL,
            cir: 0x009f_0000,
            ..*old(rcc)
        }),
        final(flash).acr == (old(flash).acr | FLASH_ACR_PRFBTE) | 0b010,
        final(rcc).cfgr & RCC_CFGR_SWS == RCC_CFGR_SWS_PLL,
{
    mmio::set_bits(&mut rcc.cr, RCC_CR_HSION);
    mmio::unset_bits(&mut rcc.cr, RCC_CR_HSEON | RCC_CR_CSSON | RCC_CR_PLLON);
    mmio::unset_bits(&mut rcc.cr, RCC_CR_HSEBYP);

    // Reset the configuration register to its default value.
    mmio::write(&mut rcc.cfgr, 0x0);

    // Disable all clock interrupts and clear pending bits.
    mmio::write(&mut rcc.cir, 0x009f_0000);

    // PLL input: the internal oscillator divided by two (bit cleared).
    mmio::unset_bits(&mut rcc.cfgr, RCC_CFGR_PLLSRC);
    // PLL multiplication factor 16: 8 MHz / 2 * 16 = 64 MHz.
    mmio::set_bits(&mut rcc.cfgr, 0b1110 << 18);
    // AHB division 1: HCLK = SYSCLK.
    mmio::set_bits(&mut rcc.cfgr, 0b0000 << 4);
    // APB2 division 1: PCLK2 = HCLK.
    mmio::set_bits(&mut rcc.cfgr, 0b000 << 11);
    // APB1 division 2: PCLK1 = HCLK / 2, which may not exceed 36 MHz.
    mmio::set_bits(&mut rcc.cfgr, 0b100 << 8);

    // Enable the flash prefetch buffer, and two wait states for 64 MHz.
    mmio::set_bits(&mut flash.acr, FLASH_ACR_PRFBTE);
    mmio::set_bits(&mut flash.acr, 0b010);

    let ghost cr_set = rcc.cr;
    let ghost cfgr_set = rcc.cfgr;

    // Enable the PLL and busy-wait until it reports ready.
    mmio::set_bits(&mut rcc.cr, RCC_CR_PLLON);
    rcc.settle();
    proof {
        let c = cr_set;
        assert(cr_settled(c | RCC_CR_PLLON) == (c | RCC_CR_PLLON) | RCC_CR_PLLRDY
            && cr_settled((c | RCC_CR_PLLON) | RCC_CR_PLLRDY) == (c | RCC_CR_PLLON)
            | RCC_CR_PLLRDY && ((c | RCC_CR_PLLON) | RCC_CR_PLLRDY) & RCC_CR_PLLRDY != 0)
            by (bit_vector);
        let f = cfgr_set;
        assert(f == 0x0038_0400u32 ==> cfgr_settled(f) == f && cfgr_settled(f | 0b10)
            == RCC_CFGR_TARGET | RCC_CFGR_SWS_PLL && (RCC_CFGR_TARGET | RCC_CFGR_SWS_PLL)
            & RCC_CFGR_SWS == RCC_CFGR_SWS_PLL) by (bit_vector);
        assert(cfgr_set == 0x0038_0400u32) by (bit_vector)
            requires
                cfgr_set == (((((0u32 & !RCC_CFGR_PLLSRC) | (0b1110u32 << 18)) | (0b0000u32 << 4))
                    | (0b000u32 << 11)) | (0b100u32 << 8)),
        ;
    }
    mmio::wait_set(&rcc.cr, RCC_CR_PLLRDY);

    // Select the PLL as the system clock and busy-wait for the switch.
    mmio::set_bits(&mut rcc.cfgr, 0b10);
    rcc.settle();
    wait_switched(&rcc.cfgr);
}

proof fn lemma_pllmul_bound(x: u32)
    by (bit_vector)
    ensures
        ((x & RCC_CFGR_PLLMUL) >> 18) + 2 <= 17,
{
}

/// Busy-wait until the source-status field reports the PLL as the system
/// clock; the modeled device has already switched.
fn wait_switched(cfgr: &u32)
    requires
        *cfgr & RCC_CFGR_SWS == RCC_CFGR_SWS_PLL,
{
    while mmio::read(cfgr) & RCC_CFGR_SWS != RCC_CFGR_SWS_PLL
        invariant
            *cfgr & RCC_CFGR_SWS == RCC_CFGR_SWS_PLL,
        decreases 0int,
    {
    }
}

/// Derive the current frequency of a clock-tree node from the live register
/// contents. The source-status encoding `0b11` is reserved by the hardware;
/// meeting it would be a hardware-contract violation, excluded here.
pub fn get_clock_speed(rcc: &Rcc, clock: Clock) -> (speed: u32)
    requires
        rcc.cfgr & RCC_CFGR_SWS != 0b11 << 2,
    ensures
        speed == spec_clock_speed(rcc.cfgr, clock),
{
    let sysclk: u32;
    if mmio::read(&rcc.cfgr) & RCC_CFGR_SWS == RCC_CFGR_SWS_HSI {
        // Internal oscillator drives the system clock.
        sysclk = HSI_BASE_FREQUENCY;
    } else if mmio::read(&rcc.cfgr) & RCC_CFGR_SWS == RCC_CFGR_SWS_HSE {
        // External oscillator drives the system clock.
        sysclk = HSE_BASE_FREQUENCY;
    } else {
        proof {
            lemma_pllmul_bound(rcc.cfgr);
        }
        // The hardware encodes multiplier N as N - 2.
        let pll_multiplier = ((mmio::read(&rcc.cfgr) & RCC_CFGR_PLLMUL) >> 18) + 2;

        assert(pll_multiplier <= 17);
        assert((HSI_BASE_FREQUENCY / 2) * pll_multiplier <= 68_000_000 && HSE_BASE_FREQUENCY
            * pll_multiplier <= 136_000_000) by (nonlinear_arith)
            requires
                HSI_BASE_FREQUENCY == 8_000_000,
                HSE_BASE_FREQUENCY == 8_000_000,
                pll_multiplier <= 17,
        ;
        if mmio::read(&rcc.cfgr) & RCC_CFGR_PLLSRC == 0 {
            sysclk = (HSI_BASE_FREQUENCY / 2) * pll_multiplier;
        } else {
            sysclk = HSE_BASE_FREQUENCY * pll_multiplier;
        }
    }

    let hpre = (mmio::read(&rcc.cfgr) & RCC_CFGR_HPRE) >> 4;
    assert((hpre & 0b111) <= 7 && ((hpre & 0b1000) >> 3) * ((hpre & 0b111) + 1) < 32)
        by (bit_vector);
    let hclk = sysclk >> (((hpre & 0b1000) >> 3) * ((hpre & 0b111) + 1));

    let ppre1 = (mmio::read(&rcc.cfgr) & RCC_CFGR_PPRE1) >> 8;
    assert((ppre1 & 0b11) <= 3 && ((ppre1 & 0b100) >> 2) * ((ppre1 & 0b11) + 1) < 32)
        by (bit_vector);
    let pclk1 = hclk >> (((ppre1 & 0b100) >> 2) * ((ppre1 & 0b11) + 1));

    let ppre2 = (mmio::read(&rcc.cfgr) & RCC_CFGR_PPRE2) >> 11;
    assert((ppre2 & 0b11) <= 3 && ((ppre2 & 0b100) >> 2) * ((ppre2 & 0b11) + 1) < 32)
        by (bit_vector);
    let pclk2 = hclk >> (((ppre2 & 0b100) >> 2) * ((ppre2 & 0b11) + 1));

    match clock {
        Clock::SYSCLK => sysclk,
        Clock::HCLK => hclk,
        Clock::PCLK1 => pclk1,
        Clock::PCLK2 => pclk2,
    }
}

/// Law: the derived frequency is a pure function of the register contents:
/// two snapshots that agree on the clock-configuration register yield the
/// same frequency for every node, so repeated queries of an unchanged block
/// return identical results.
pub proof fn lemma_clock_speed_pure(a: Rcc, b: Rcc, clock: Clock)
    requires
        a.cfgr == b.cfgr,
    ensures
        spec_clock_speed(a.cfgr, clock) == spec_clock_speed(b.cfgr, clock),
{
}

} // verus!
