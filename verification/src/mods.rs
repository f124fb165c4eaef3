//! The modifier bitset.
//!
//! Gameplay modifiers are passed around as a plain `u32` whose bits follow
//! the conventional flag values. Only the flags that influence difficulty
//! or performance are exposed here. The clock rate derived from the
//! double-time and half-time flags is reported in permille (1000 = 1.0x)
//! so that it stays exact.

use vstd::prelude::*;

verus! {

/// Bit flag of the easy modifier.
pub const EZ: u32 = 2;
/// Bit flag of the hidden modifier.
pub const HD: u32 = 8;
/// Bit flag of the hard-rock modifier.
pub const HR: u32 = 16;
/// Bit flag of the double-time modifier.
pub const DT: u32 = 64;
/// Bit flag of the half-time modifier.
pub const HT: u32 = 256;
/// Bit flag of the flashlight modifier.
pub const FL: u32 = 1024;

/// Clock rate of double-time, in permille.
pub const CLOCK_RATE_DT: u32 = 1500;
/// Clock rate of half-time, in permille.
pub const CLOCK_RATE_HT: u32 = 750;
/// Default clock rate, in permille.
pub const CLOCK_RATE_NONE: u32 = 1000;

/// Whether the given flag is set in the bitset.
pub open spec fn spec_has_flag(bits: u32, flag: u32) -> bool {
    bits & flag != 0
}

/// The clock rate implied by the modifier bits, in permille:
/// 1500 for double-time, 750 for half-time, 1000 otherwise.
/// Double-time wins if both flags are set.
pub open spec fn spec_clock_rate_permille(bits: u32) -> u32 {
    if spec_has_flag(bits, DT) {
        CLOCK_RATE_DT
    } else if spec_has_flag(bits, HT) {
        CLOCK_RATE_HT
    } else {
        CLOCK_RATE_NONE
    }
}

/// A set of gameplay modifiers, stored as a bitset.
#[derive(Clone, Copy, PartialEq, Eq, Structural)]
pub struct Mods {
    /// The raw modifier bits.
    pub bits: u32,
}

impl Mods {
    /// Wrap raw modifier bits.
    pub fn new(bits: u32) -> (r: Self)
        ensures
            r.bits == bits,
    {
        Mods { bits }
    }

    /// Whether the easy modifier is set.
    pub fn ez(&self) -> (r: bool)
        ensures
            r == spec_has_flag(self.bits, EZ),
    {
        self.bits & EZ != 0
    }

    /// Whether the hidden modifier is set.
    pub fn hd(&self) -> (r: bool)
        ensures
            r == spec_has_flag(self.bits, HD),
    {
        self.bits & HD != 0
    }

    /// Whether the hard-rock modifier is set.
    pub fn hr(&self) -> (r: bool)
        ensures
            r == spec_has_flag(self.bits, HR),
    {
        self.bits & HR != 0
    }

    /// Whether the double-time modifier is set.
    pub fn dt(&self) -> (r: bool)
        ensures
            r == spec_has_flag(self.bits, DT),
    {
        self.bits & DT != 0
    }

    /// Whether the half-time modifier is set.
    pub fn ht(&self) -> (r: bool)
        ensures
            r == spec_has_flag(self.bits, HT),
    {
        self.bits & HT != 0
    }

    /// Whether the flashlight modifier is set.
    pub fn fl(&self) -> (r: bool)
        ensures
            r == spec_has_flag(self.bits, FL),
    {
        self.bits & FL != 0
    }

    /// The clock rate implied by the modifiers, in permille.
    pub fn clock_rate_permille(&self) -> (r: u32)
        ensures
            r == spec_clock_rate_permille(self.bits),
    {
        if self.bits & DT != 0 {
            CLOCK_RATE_DT
        } else if self.bits & HT != 0 {
            CLOCK_RATE_HT
        } else {
            CLOCK_RATE_NONE
        }
    }
}

} // verus!
