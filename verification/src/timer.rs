//! One general-purpose timer. Only the counter-enable operation of the
//! control register is exercised; the rest of the block is untouched.

use vstd::prelude::*;

use crate::mmio;

verus! {

/// Counter-enable bit of the timer control register.
pub const TIMX_CR1_CEN: u32 = 1 << 0;

/// Base address of TIM2; a timer's identity is its base address.
pub const TIM2_BASE: u32 = 0x4000_0000;

/// One general-purpose timer: its identity and its control register.
pub struct Timer {
    /// Base address of the register block; the timer's identity.
    pub base: u32,
    /// Control register 1.
    pub cr1: u32,
}

impl Timer {
    /// A timer in its reset state.
    pub fn new(base: u32) -> (timer: Timer)
        ensures
            timer == (Timer { base: base, cr1: 0 }),
    {
        Timer { base, cr1: 0 }
    }

    /// Start the counter. The period is not yet programmed; only the
    /// enable bit is set.
    #[allow(unused_variables)]
    pub fn enable(&mut self, period_ms: u32)
        ensures
            *final(self) == (Timer { cr1: old(self).cr1 | TIMX_CR1_CEN, ..*old(self) }),
    {
        mmio::set_bit(&mut self.cr1, TIMX_CR1_CEN);
    }
}

} // verus!
