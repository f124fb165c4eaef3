//! Settings of a difficulty calculation.

use vstd::prelude::*;

use crate::mods::{spec_clock_rate_permille, Mods};

verus! {

/// Smallest accepted clock rate, in permille (0.01x).
pub const CLOCK_RATE_MIN: u32 = 10;
/// Largest accepted clock rate, in permille (100x).
pub const CLOCK_RATE_MAX: u32 = 100_000;

/// Clamp a clock rate override into the accepted permille range.
pub open spec fn spec_clamp_clock_rate(v: u32) -> u32 {
    if v < CLOCK_RATE_MIN {
        CLOCK_RATE_MIN
    } else if v > CLOCK_RATE_MAX {
        CLOCK_RATE_MAX
    } else {
        v
    }
}

/// Difficulty calculator on maps of a given mode.
///
/// Collects the modifier bits, an optional cap on the number of
/// processed objects and an optional clock rate override. Clock rates
/// are handled in permille (1000 = 1.0x) so that they stay exact.
#[derive(Clone, Copy)]
pub struct ModeDifficulty {
    /// The modifier bits.
    pub mods: u32,
    /// An optional cap on the number of processed objects.
    pub passed_objects: Option<u32>,
    /// An optional clock rate override, in permille.
    pub clock_rate: Option<u32>,
}

impl ModeDifficulty {
    /// The effective clock rate, in permille: the override if one was
    /// given, else the rate the modifiers imply.
    pub open spec fn spec_clock_rate(&self) -> u32 {
        match self.clock_rate {
            Some(rate) => rate,
            None => spec_clock_rate_permille(self.mods),
        }
    }

    /// The number of objects to process: the cap if one was given,
    /// else all of them.
    pub open spec fn spec_passed_objects(&self) -> u32 {
        match self.passed_objects {
            Some(n) => n,
            None => u32::MAX,
        }
    }

    /// The modifier bits.
    pub open spec fn spec_mods(&self) -> u32 {
        self.mods
    }

    /// Create a new difficulty calculator with no modifiers, no object
    /// cap and no clock rate override.
    pub fn new() -> (r: Self)
        ensures
            r.spec_mods() == 0,
            r.passed_objects is None,
            r.clock_rate is None,
    {
        ModeDifficulty { mods: 0, passed_objects: None, clock_rate: None }
    }

    /// Specify modifiers through their bit values.
    pub fn mods(self, mods: u32) -> (r: Self)
        ensures
            r.spec_mods() == mods,
            r.passed_objects == self.passed_objects,
            r.clock_rate == self.clock_rate,
    {
        ModeDifficulty { mods, ..self }
    }

    /// Cap the amount of processed objects, e.g. for a partial play.
    pub fn passed_objects(self, passed_objects: u32) -> (r: Self)
        ensures
            r.spec_mods() == self.spec_mods(),
            r.passed_objects == Some(passed_objects),
            r.clock_rate == self.clock_rate,
    {
        ModeDifficulty { passed_objects: Some(passed_objects), ..self }
    }

    /// Override the clock rate, in permille. Values outside the
    /// accepted range are clamped.
    pub fn clock_rate(self, clock_rate: u32) -> (r: Self)
        ensures
            r.spec_mods() == self.spec_mods(),
            r.passed_objects == self.passed_objects,
            r.clock_rate == Some(spec_clamp_clock_rate(clock_rate)),
    {
        let clamped: u32 = if clock_rate < CLOCK_RATE_MIN {
            CLOCK_RATE_MIN
        } else if clock_rate > CLOCK_RATE_MAX {
            CLOCK_RATE_MAX
        } else {
            clock_rate
        };

        ModeDifficulty { clock_rate: Some(clamped), ..self }
    }

    /// The modifier bits.
    pub fn get_mods(&self) -> (r: u32)
        ensures
            r == self.spec_mods(),
    {
        self.mods
    }

    /// The effective clock rate, in permille.
    pub fn get_clock_rate(&self) -> (r: u32)
        ensures
            r == self.spec_clock_rate(),
    {
        match self.clock_rate {
            Some(rate) => rate,
            None => Mods::new(self.mods).clock_rate_permille(),
        }
    }

    /// The number of objects to process.
    pub fn get_passed_objects(&self) -> (r: u32)
        ensures
            r == self.spec_passed_objects(),
    {
        match self.passed_objects {
            Some(n) => n,
            None => u32::MAX,
        }
    }
}

impl Default for ModeDifficulty {
    /// The default calculator has no modifiers, no object cap and no
    /// clock rate override.
    fn default() -> (r: Self)
        ensures
            r.spec_mods() == 0,
            r.spec_clock_rate() == 1000,
            r.spec_passed_objects() == u32::MAX,
    {
        proof {
            assert(0u32 & 64u32 == 0u32) by (bit_vector);
            assert(0u32 & 256u32 == 0u32) by (bit_vector);
        }

        ModeDifficulty::new()
    }
}

} // verus!
