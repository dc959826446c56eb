//! Volatile single-word access primitives.
//!
//! On hardware these are volatile loads and stores to absolute addresses. In
//! this model a register is the `u32` word it holds, reached by reference, and
//! each primitive states exactly the read-modify-write it performs. An invalid
//! address cannot be expressed here: the register itself is passed in.

use vstd::prelude::*;

verus! {

/// Read a register word.
pub fn read(reg: &u32) -> (val: u32)
    ensures
        val == *reg,
{
    *reg
}

/// Write a register word.
pub fn write(reg: &mut u32, val: u32)
    ensures
        *final(reg) == val,
{
    *reg = val;
}

/// Write a single byte: a byte-wide store replaces the low byte of the word
/// and leaves the upper three bytes unchanged.
pub fn write_u8(reg: &mut u32, val: u8)
    ensures
        *final(reg) == (*old(reg) & 0xffff_ff00) | (val as u32),
{
    *reg = (*reg & 0xffff_ff00) | (val as u32);
}

/// Read-modify-write OR of one bit (or several) into a register.
pub fn set_bit(reg: &mut u32, bit: u32)
    ensures
        *final(reg) == *old(reg) | bit,
{
    let v = read(reg);
    write(reg, v | bit);
}

/// Read-modify-write OR of a mask into a register.
pub fn set_bits(reg: &mut u32, mask: u32)
    ensures
        *final(reg) == *old(reg) | mask,
{
    let v = read(reg);
    write(reg, v | mask);
}

/// Read-modify-write AND-NOT: clear every bit of the mask.
pub fn unset_bits(reg: &mut u32, mask: u32)
    ensures
        *final(reg) == *old(reg) & !mask,
{
    let v = read(reg);
    write(reg, v & !mask);
}

/// Busy-wait until a status bit is set. The modeled peripheral has already
/// raised the flag, so the wait returns at once; on silicon this loop spins
/// until the hardware responds, with no timeout.
pub fn wait_set(reg: &u32, mask: u32)
    requires
        *reg & mask != 0,
{
    while read(reg) & mask == 0
        invariant
            *reg & mask != 0,
        decreases 0int,
    {
    }
}

} // verus!
