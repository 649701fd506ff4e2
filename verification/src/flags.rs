//! The processor status register: eight independent condition bits packed in
//! one byte, with the usual bit-set operations.

use vstd::prelude::*;
use vstd::std_specs::ops::{BitAndSpecImpl, BitOrSpecImpl};

verus! {

/// Mask of the carry flag.
pub const CARRY: u8 = 0b0000_0001;

/// Mask of the zero flag.
pub const ZERO: u8 = 0b0000_0010;

/// Mask of the interrupt-disable flag.
pub const INTERRUPT_DISABLE: u8 = 0b0000_0100;

/// Mask of the decimal-mode flag.
pub const DECIMAL_MODE: u8 = 0b0000_1000;

/// Mask of the break flag, which only ever exists in a pushed status byte.
pub const BREAK: u8 = 0b0001_0000;

/// Mask of the always-set companion of the break flag.
pub const BREAK2: u8 = 0b0010_0000;

/// Mask of the overflow flag.
pub const OVERFLOW: u8 = 0b0100_0000;

/// Mask of the negative flag.
pub const NEGATIVE: u8 = 0b1000_0000;

/// Whether every bit of `mask` is set in `bits`.
pub open spec fn is_set(bits: u8, mask: u8) -> bool {
    bits & mask == mask
}

/// `bits` with the bits of `mask` switched on or off.
pub open spec fn assign(bits: u8, mask: u8, on: bool) -> u8 {
    if on {
        bits | mask
    } else {
        bits & !mask
    }
}

/// Switching a non-empty mask on or off is what a later test of it sees.
pub proof fn lemma_assign_same(bits: u8, mask: u8, on: bool)
    requires
        mask != 0,
    ensures
        is_set(assign(bits, mask, on), mask) == on,
{
    assert((bits | mask) & mask == mask) by (bit_vector);
    assert(mask != 0 ==> (bits & !mask) & mask != mask) by (bit_vector);
}

/// Switching one mask leaves every mask disjoint from it as it was.
pub proof fn lemma_assign_other(bits: u8, mask: u8, on: bool, other: u8)
    requires
        mask & other == 0,
    ensures
        is_set(assign(bits, mask, on), other) == is_set(bits, other),
{
    assert(mask & other == 0 ==> (bits | mask) & other == bits & other) by (bit_vector);
    assert(mask & other == 0 ==> (bits & !mask) & other == bits & other) by (bit_vector);
}

/// A set of status flags.
#[derive(Clone, Copy, Debug, PartialEq, Eq)]
pub struct CpuFlags {
    bits: u8,
}

impl View for CpuFlags {
    type V = u8;

    /// The status byte.
    closed spec fn view(&self) -> u8 {
        self.bits
    }
}

impl CpuFlags {
    /// The set that holds the carry flag alone.
    #[allow(non_snake_case)]
    pub fn CARRY() -> (r: CpuFlags)
        ensures
            r@ == CARRY,
    {
        CpuFlags { bits: CARRY }
    }

    /// The set that holds the zero flag alone.
    #[allow(non_snake_case)]
    pub fn ZERO() -> (r: CpuFlags)
        ensures
            r@ == ZERO,
    {
        CpuFlags { bits: ZERO }
    }

    /// The set that holds the interrupt-disable flag alone.
    #[allow(non_snake_case)]
    pub fn INTERRUPT_DISABLE() -> (r: CpuFlags)
        ensures
            r@ == INTERRUPT_DISABLE,
    {
        CpuFlags { bits: INTERRUPT_DISABLE }
    }

    /// The set that holds the decimal-mode flag alone.
    #[allow(non_snake_case)]
    pub fn DECIMAL_MODE() -> (r: CpuFlags)
        ensures
            r@ == DECIMAL_MODE,
    {
        CpuFlags { bits: DECIMAL_MODE }
    }

    /// The set that holds the break flag alone.
    #[allow(non_snake_case)]
    pub fn BREAK() -> (r: CpuFlags)
        ensures
            r@ == BREAK,
    {
        CpuFlags { bits: BREAK }
    }

    /// The set that holds the always-set flag alone.
    #[allow(non_snake_case)]
    pub fn BREAK2() -> (r: CpuFlags)
        ensures
            r@ == BREAK2,
    {
        CpuFlags { bits: BREAK2 }
    }

    /// The set that holds the overflow flag alone.
    #[allow(non_snake_case)]
    pub fn OVERFLOW() -> (r: CpuFlags)
        ensures
            r@ == OVERFLOW,
    {
        CpuFlags { bits: OVERFLOW }
    }

    /// The set that holds the negative flag alone.
    #[allow(non_snake_case)]
    pub fn NEGATIVE() -> (r: CpuFlags)
        ensures
            r@ == NEGATIVE,
    {
        CpuFlags { bits: NEGATIVE }
    }

    /// The set with no flag in it.
    pub fn empty() -> (r: CpuFlags)
        ensures
            r@ == 0,
    {
        CpuFlags { bits: 0 }
    }

    /// The set whose status byte is `bits`; all eight bits are flags, so
    /// nothing is cut off.
    pub fn from_bits_truncate(bits: u8) -> (r: CpuFlags)
        ensures
            r@ == bits,
    {
        CpuFlags { bits }
    }

    /// The status byte.
    pub fn bits(&self) -> (r: u8)
        ensures
            r == self@,
    {
        self.bits
    }

    /// Whether every flag of `other` is set.
    pub fn contains(&self, other: CpuFlags) -> (r: bool)
        ensures
            r == is_set(self@, other@),
    {
        self.bits & other.bits == other.bits
    }

    /// Sets the flags of `other`.
    pub fn insert(&mut self, other: CpuFlags)
        ensures
            final(self)@ == assign(old(self)@, other@, true),
    {
        self.bits = self.bits | other.bits;
    }

    /// Clears the flags of `other`.
    pub fn remove(&mut self, other: CpuFlags)
        ensures
            final(self)@ == assign(old(self)@, other@, false),
    {
        self.bits = self.bits & !other.bits;
    }

    /// Sets the flags of `other` where `on` holds and clears them where it
    /// does not.
    pub fn set(&mut self, other: CpuFlags, on: bool)
        ensures
            final(self)@ == assign(old(self)@, other@, on),
    {
        if on {
            self.insert(other);
        } else {
            self.remove(other);
        }
    }
}

impl core::ops::BitAnd for CpuFlags {
    type Output = CpuFlags;

    /// The flags set in both.
    fn bitand(self, rhs: CpuFlags) -> (r: CpuFlags)
        ensures
            r@ == self@ & rhs@,
    {
        CpuFlags { bits: self.bits & rhs.bits }
    }
}

impl BitAndSpecImpl for CpuFlags {
    open spec fn obeys_bitand_spec() -> bool {
        true
    }

    open spec fn bitand_req(self, rhs: CpuFlags) -> bool {
        true
    }

    closed spec fn bitand_spec(self, rhs: CpuFlags) -> CpuFlags {
        CpuFlags { bits: self.bits & rhs.bits }
    }
}

impl core::ops::BitOr for CpuFlags {
    type Output = CpuFlags;

    /// The flags set in either.
    fn bitor(self, rhs: CpuFlags) -> (r: CpuFlags)
        ensures
            r@ == self@ | rhs@,
    {
        CpuFlags { bits: self.bits | rhs.bits }
    }
}

impl BitOrSpecImpl for CpuFlags {
    open spec fn obeys_bitor_spec() -> bool {
        true
    }

    open spec fn bitor_req(self, rhs: CpuFlags) -> bool {
        true
    }

    closed spec fn bitor_spec(self, rhs: CpuFlags) -> CpuFlags {
        CpuFlags { bits: self.bits | rhs.bits }
    }
}

} // verus!
