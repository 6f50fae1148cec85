//! Interrupt configuration for the INT1 line.
//!
//! An `InterruptConfigSrc1` is a set of six enabled interrupt causes; it is
//! packed into, and read back from, the byte of the `INT1_CTRL` register.

use vstd::prelude::*;

use crate::device::IIS3DWB;
use crate::register::{RegisterWrite, CTRL4_C, DRDY_MASK, INT1_CTRL, INTERRUPTS_EN, INTERRUPTS_EN_ADDR};

verus! {

/// One cause of an interrupt on the INT1 line.
#[derive(Copy, Clone, Debug, PartialEq, Eq, Structural)]
pub enum InterruptSource1 {
    AccDataReady,
    BootStatus,
    FifoThreshold,
    FifoOverrun,
    FifoFull,
    BDRCounter,
}

/// The bit of `INT1_CTRL` that enables `s`.
pub open spec fn source_mask(s: InterruptSource1) -> u8 {
    match s {
        InterruptSource1::AccDataReady => 0b0000_0001u8,
        InterruptSource1::BootStatus => 0b0000_0100u8,
        InterruptSource1::FifoThreshold => 0b0000_1000u8,
        InterruptSource1::FifoOverrun => 0b0001_0000u8,
        InterruptSource1::FifoFull => 0b0010_0000u8,
        InterruptSource1::BDRCounter => 0b0100_0000u8,
    }
}

impl InterruptSource1 {
    /// The register bit of this source.
    pub fn raw(self) -> (r: u8)
        ensures
            r == source_mask(self),
    {
        match self {
            InterruptSource1::AccDataReady => 0b0000_0001u8,
            InterruptSource1::BootStatus => 0b0000_0100u8,
            InterruptSource1::FifoThreshold => 0b0000_1000u8,
            InterruptSource1::FifoOverrun => 0b0001_0000u8,
            InterruptSource1::FifoFull => 0b0010_0000u8,
            InterruptSource1::BDRCounter => 0b0100_0000u8,
        }
    }
}

/// The bits of `INT1_CTRL` that some source uses: every bit but the reserved
/// `0b0000_0010` and the top bit.
pub const INT1_SOURCE_BITS: u8 = 0b0111_1101;

/// Which interrupt causes are routed to the INT1 line.
#[allow(non_snake_case)]
#[derive(Copy, Clone, Debug, PartialEq, Eq, Structural)]
pub struct InterruptConfigSrc1 {
    pub AccDataReady: bool,
    pub BootStatus: bool,
    pub FifoThreshold: bool,
    pub FifoOverrun: bool,
    pub FifoFull: bool,
    pub BDRCounter: bool,
}

/// `m` when `b` holds, else no bit.
pub open spec fn bit_if(b: bool, m: u8) -> u8 {
    if b { m } else { 0u8 }
}

/// The configuration that a register byte stands for: a source is enabled
/// exactly when its bit is set, whatever the other bits hold.
pub open spec fn config_of(val: u8) -> InterruptConfigSrc1 {
    InterruptConfigSrc1 {
        AccDataReady: val & 0b0000_0001u8 != 0,
        BootStatus: val & 0b0000_0100u8 != 0,
        FifoThreshold: val & 0b0000_1000u8 != 0,
        FifoOverrun: val & 0b0001_0000u8 != 0,
        FifoFull: val & 0b0010_0000u8 != 0,
        BDRCounter: val & 0b0100_0000u8 != 0,
    }
}

impl InterruptConfigSrc1 {
    /// Whether source `s` is enabled.
    pub open spec fn enabled(self, s: InterruptSource1) -> bool {
        match s {
            InterruptSource1::AccDataReady => self.AccDataReady,
            InterruptSource1::BootStatus => self.BootStatus,
            InterruptSource1::FifoThreshold => self.FifoThreshold,
            InterruptSource1::FifoOverrun => self.FifoOverrun,
            InterruptSource1::FifoFull => self.FifoFull,
            InterruptSource1::BDRCounter => self.BDRCounter,
        }
    }

    /// The register byte: the bit of each enabled source, and no other.
    pub open spec fn bits(self) -> u8 {
        bit_if(self.AccDataReady, 0b0000_0001u8)
            | bit_if(self.BootStatus, 0b0000_0100u8)
            | bit_if(self.FifoThreshold, 0b0000_1000u8)
            | bit_if(self.FifoOverrun, 0b0001_0000u8)
            | bit_if(self.FifoFull, 0b0010_0000u8)
            | bit_if(self.BDRCounter, 0b0100_0000u8)
    }

    /// The configuration with no source enabled.
    pub open spec fn spec_none() -> Self {
        InterruptConfigSrc1 {
            AccDataReady: false,
            BootStatus: false,
            FifoThreshold: false,
            FifoOverrun: false,
            FifoFull: false,
            BDRCounter: false,
        }
    }

    /// No source enabled.
    pub fn none() -> (r: Self)
        ensures
            r == Self::spec_none(),
            forall|s: InterruptSource1| !r.enabled(s),
    {
        InterruptConfigSrc1 {
            AccDataReady: false,
            BootStatus: false,
            FifoThreshold: false,
            FifoOverrun: false,
            FifoFull: false,
            BDRCounter: false,
        }
    }

    /// Reads a register byte: each source is enabled exactly when its bit is
    /// set; the reserved bit and the top bit are ignored.
    pub fn from_raw(val: u8) -> (r: Self)
        ensures
            r == config_of(val),
            forall|s: InterruptSource1| r.enabled(s) == (val & source_mask(s) != 0),
    {
        let mut cfg = InterruptConfigSrc1::none();
        if val & InterruptSource1::BDRCounter.raw() > 0 {
            cfg.BDRCounter = true;
        }
        if val & InterruptSource1::FifoFull.raw() > 0 {
            cfg.FifoFull = true;
        }
        if val & InterruptSource1::FifoOverrun.raw() > 0 {
            cfg.FifoOverrun = true;
        }
        if val & InterruptSource1::FifoThreshold.raw() > 0 {
            cfg.FifoThreshold = true;
        }
        if val & InterruptSource1::BootStatus.raw() > 0 {
            cfg.BootStatus = true;
        }
        if val & InterruptSource1::AccDataReady.raw() > 0 {
            cfg.AccDataReady = true;
        }
        cfg
    }

    /// Packs the configuration into a register byte: the bit of each enabled
    /// source is set and every other bit is clear.
    pub fn raw(self) -> (r: u8)
        ensures
            r == self.bits(),
            r & !INT1_SOURCE_BITS == 0,
            forall|s: InterruptSource1| (r & source_mask(s) != 0) == self.enabled(s),
    {
        let mut acc: u8 = 0;
        acc = acc | if self.AccDataReady { InterruptSource1::AccDataReady.raw() } else { 0 };
        acc = acc | if self.BootStatus { InterruptSource1::BootStatus.raw() } else { 0 };
        acc = acc | if self.FifoThreshold { InterruptSource1::FifoThreshold.raw() } else { 0 };
        acc = acc | if self.FifoOverrun { InterruptSource1::FifoOverrun.raw() } else { 0 };
        acc = acc | if self.FifoFull { InterruptSource1::FifoFull.raw() } else { 0 };
        acc = acc | if self.BDRCounter { InterruptSource1::BDRCounter.raw() } else { 0 };
        proof {
            lemma_zero_or(bit_if(self.AccDataReady, 0b0000_0001u8));
            lemma_bits_fields(self);
        }
        acc
    }
}

/// Adding bits to an empty byte gives those bits.
proof fn lemma_zero_or(x: u8)
    ensures
        0u8 | x == x,
{
    assert(0u8 | x == x) by (bit_vector);
}

/// What the bit test of each source reads back from a packed byte.
proof fn lemma_bits_fields(c: InterruptConfigSrc1)
    ensures
        c.bits() & !INT1_SOURCE_BITS == 0,
        config_of(c.bits()) == c,
        forall|s: InterruptSource1| (c.bits() & source_mask(s) != 0) == c.enabled(s),
{
    let (a, b, t, o, f, d) = (c.AccDataReady, c.BootStatus, c.FifoThreshold, c.FifoOverrun, c.FifoFull, c.BDRCounter);
    let x = c.bits();
    assert(x == (if a { 1u8 } else { 0u8 }) | (if b { 4u8 } else { 0u8 }) | (if t { 8u8 } else { 0u8 })
        | (if o { 16u8 } else { 0u8 }) | (if f { 32u8 } else { 0u8 }) | (if d { 64u8 } else { 0u8 }));
    assert(x & !0b0111_1101u8 == 0 && (x & 1 != 0) == a && (x & 4 != 0) == b && (x & 8 != 0) == t
        && (x & 16 != 0) == o && (x & 32 != 0) == f && (x & 64 != 0) == d) by (bit_vector)
        requires
            x == (if a { 1u8 } else { 0u8 }) | (if b { 4u8 } else { 0u8 }) | (if t { 8u8 } else { 0u8 })
                | (if o { 16u8 } else { 0u8 }) | (if f { 32u8 } else { 0u8 }) | (if d { 64u8 } else { 0u8 }),
    ;
}

/// Reading back a packed configuration gives the configuration itself.
pub proof fn lemma_decode_encode(c: InterruptConfigSrc1)
    ensures
        config_of(c.bits()) == c,
{
    lemma_bits_fields(c);
}

/// Packing what a byte reads as gives back exactly the source bits of the
/// byte: the reserved bit and the top bit are dropped.
pub proof fn lemma_encode_decode(val: u8)
    ensures
        config_of(val).bits() == val & INT1_SOURCE_BITS,
{
    let x = config_of(val).bits();
    assert(x == bit_if(val & 1u8 != 0, 1u8) | bit_if(val & 4u8 != 0, 4u8) | bit_if(val & 8u8 != 0, 8u8)
        | bit_if(val & 16u8 != 0, 16u8) | bit_if(val & 32u8 != 0, 32u8) | bit_if(val & 64u8 != 0, 64u8));
    assert(x == val & 0b0111_1101u8) by (bit_vector)
        requires
            x == (if val & 1u8 != 0 { 1u8 } else { 0u8 }) | (if val & 4u8 != 0 { 4u8 } else { 0u8 })
                | (if val & 8u8 != 0 { 8u8 } else { 0u8 }) | (if val & 16u8 != 0 { 16u8 } else { 0u8 })
                | (if val & 32u8 != 0 { 32u8 } else { 0u8 }) | (if val & 64u8 != 0 { 64u8 } else { 0u8 }),
    ;
}

/// For a byte whose `FifoFull` bit is clear, packing what it reads as gives
/// back the byte masked with `0b0101_1101`.
pub proof fn lemma_encode_decode_fifo_full_clear(val: u8)
    requires
        val & 0b0010_0000u8 == 0,
    ensures
        config_of(val).bits() == val & 0b0101_1101u8,
{
    lemma_encode_decode(val);
    assert(val & 0b0111_1101u8 == val & 0b0101_1101u8) by (bit_vector)
        requires
            val & 0b0010_0000u8 == 0,
    ;
}

/// The reserved bit `0b0000_0010` has no effect on what a byte reads as.
pub proof fn lemma_reserved_bit_ignored(val: u8)
    ensures
        config_of(val | 0b0000_0010u8) == config_of(val),
        config_of(val & !0b0000_0010u8) == config_of(val),
{
    let (x, y) = (val | 0b0000_0010u8, val & !0b0000_0010u8);
    assert((x & 1 != 0) == (val & 1 != 0) && (x & 4 != 0) == (val & 4 != 0) && (x & 8 != 0) == (val & 8 != 0)
        && (x & 16 != 0) == (val & 16 != 0) && (x & 32 != 0) == (val & 32 != 0) && (x & 64 != 0) == (val & 64 != 0))
        by (bit_vector)
        requires
            x == val | 2u8,
    ;
    assert((y & 1 != 0) == (val & 1 != 0) && (y & 4 != 0) == (val & 4 != 0) && (y & 8 != 0) == (val & 8 != 0)
        && (y & 16 != 0) == (val & 16 != 0) && (y & 32 != 0) == (val & 32 != 0) && (y & 64 != 0) == (val & 64 != 0))
        by (bit_vector)
        requires
            y == val & !2u8,
    ;
}

impl Default for InterruptConfigSrc1 {
    /// No source enabled.
    fn default() -> (r: Self)
        ensures
            r == Self::spec_none(),
    {
        Self::none()
    }
}

/// The setup of the INT1 interrupt line.
#[derive(Copy, Clone, Debug)]
pub struct Interrupt1 {
    pub cfg: InterruptConfigSrc1,
}

impl Default for Interrupt1 {
    /// INT1 with no source enabled.
    fn default() -> (r: Self)
        ensures
            r.cfg == InterruptConfigSrc1::spec_none(),
    {
        Interrupt1 { cfg: InterruptConfigSrc1::default() }
    }
}

impl IIS3DWB {
    /// Routes the sources that `int1` enables to the INT1 line: one write of
    /// the packed configuration to `INT1_CTRL`.
    pub fn set_interrupt_1(&mut self, int1: Interrupt1)
        ensures
            final(self)@ == old(self)@.push(RegisterWrite { addr: INT1_CTRL, value: int1.cfg.bits() }),
    {
        let requested = int1.cfg.raw();
        self.write_reg(INT1_CTRL, requested);
    }

    /// Enables the delivery of all interrupts.
    pub fn enable_all_interrupts(&mut self)
        ensures
            final(self)@ == old(self)@.push(RegisterWrite { addr: INTERRUPTS_EN_ADDR, value: INTERRUPTS_EN }),
    {
        self.write_reg(INTERRUPTS_EN_ADDR, INTERRUPTS_EN);
    }

    /// Disables the delivery of all interrupts.
    pub fn disable_all_interrupts(&mut self)
        ensures
            final(self)@ == old(self)@.push(RegisterWrite { addr: INTERRUPTS_EN_ADDR, value: 0 }),
    {
        self.write_reg(INTERRUPTS_EN_ADDR, 0);
    }

    /// Sets the data-ready mask bit of `CTRL4_C`.
    pub fn enable_drdy(&mut self)
        ensures
            final(self)@ == old(self)@.push(RegisterWrite { addr: CTRL4_C, value: DRDY_MASK }),
    {
        self.write_reg(CTRL4_C, DRDY_MASK);
    }

    /// Handles an interrupt on INT1: nothing is written.
    pub fn on_irq1(&mut self)
        ensures
            final(self)@ == old(self)@,
    {
    }
}

} // verus!
