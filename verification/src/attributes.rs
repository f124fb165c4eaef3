//! The discrete part of a difficulty calculation's result.
//!
//! The per-skill scalar ratings are real-valued and belong to the
//! numerical pipeline; what the performance combiner's hitresult logic
//! reads from a difficulty calculation are the object counts and the
//! maximum combo gathered here.

use vstd::prelude::*;

use crate::performance::OsuPerformance;

verus! {

/// The discrete result of a difficulty calculation on an osu!standard
/// map: the object counts and the maximum combo.
#[derive(Clone, Copy, Debug, PartialEq, Eq, Structural)]
pub struct OsuDifficultyAttributes {
    /// The number of circles.
    pub n_circles: u32,
    /// The number of sliders.
    pub n_sliders: u32,
    /// The number of spinners.
    pub n_spinners: u32,
    /// The maximum combo of the map.
    pub max_combo: u32,
}

impl OsuDifficultyAttributes {
    /// The number of hit objects, as a mathematical sum.
    pub open spec fn spec_n_objects(&self) -> int {
        self.n_circles + self.n_sliders + self.n_spinners
    }

    /// The object counts fit together in a single count.
    pub open spec fn wf(&self) -> bool {
        self.spec_n_objects() <= u32::MAX
    }

    /// Return the maximum combo.
    pub fn max_combo(&self) -> (r: u32)
        ensures
            r == self.max_combo,
    {
        self.max_combo
    }

    /// Return the amount of hit objects.
    pub fn n_objects(&self) -> (r: u32)
        requires
            self.wf(),
        ensures
            r == self.spec_n_objects(),
    {
        self.n_circles + self.n_sliders + self.n_spinners
    }

    /// Returns a builder for performance calculation.
    pub fn performance(self) -> (r: OsuPerformance)
        ensures
            r == OsuPerformance::spec_from_attrs(self),
    {
        OsuPerformance::new(self)
    }
}

impl Default for OsuDifficultyAttributes {
    /// The default attributes have every count at zero.
    fn default() -> (r: Self)
        ensures
            r == (OsuDifficultyAttributes {
                n_circles: 0u32,
                n_sliders: 0u32,
                n_spinners: 0u32,
                max_combo: 0u32,
            }),
    {
        OsuDifficultyAttributes { n_circles: 0, n_sliders: 0, n_spinners: 0, max_combo: 0 }
    }
}

} // verus!
