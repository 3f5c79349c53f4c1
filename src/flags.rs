//! Bits of the status register: `NV-BDIZC`.
use vstd::prelude::*;

verus! {

/// Negative: bit 7 of the last result.
pub const N: u8 = 0x80;

/// Signed overflow.
pub const V: u8 = 0x40;

/// Unused bit, set when the register is pushed.
pub const U: u8 = 0x20;

/// Break: set in the copy that `PHP` and `BRK` push.
pub const B: u8 = 0x10;

/// Decimal mode (inert on this processor).
pub const D: u8 = 0x08;

/// Interrupt inhibit: disables maskable interrupts.
pub const I: u8 = 0x04;

/// Zero: the last result was zero.
pub const Z: u8 = 0x02;

/// Carry: unsigned carry out, or no borrow.
pub const C: u8 = 0x01;

} // verus!
