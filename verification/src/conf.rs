//! Board bring-up constants: the base frequencies of the two oscillators the
//! clock tree can be driven from.

use vstd::prelude::*;

verus! {

/// Frequency of the internal (HSI) oscillator, in Hz.
pub const HSI_BASE_FREQUENCY: u32 = 8_000_000;

/// Frequency of the external (HSE) oscillator fitted on the board, in Hz.
pub const HSE_BASE_FREQUENCY: u32 = 8_000_000;

} // verus!
