//! Register addresses and bit patterns of the chip, and the register write
//! as a value.

use vstd::prelude::*;

verus! {

/// Address of `INT1_CTRL`: the sources routed to the INT1 line.
pub const INT1_CTRL: u8 = 0x0D;

/// Address of `CTRL4_C`.
pub const CTRL4_C: u8 = 0x13;

/// Address of `INTERRUPTS_EN`: delivery of all interrupts.
pub const INTERRUPTS_EN_ADDR: u8 = 0x58;

/// `INTERRUPTS_EN` value that enables the delivery of all interrupts.
pub const INTERRUPTS_EN: u8 = 0b1000_0000;

/// `CTRL4_C` value with the data-ready mask bit set.
pub const DRDY_MASK: u8 = 0b0000_1000;

/// One single-byte write of `value` to the register at `addr`.
#[derive(Copy, Clone, Debug, PartialEq, Eq, Structural)]
pub struct RegisterWrite {
    pub addr: u8,
    pub value: u8,
}

} // verus!
