//! The hitresults and combo of a play.

use vstd::prelude::*;

verus! {

/// The state of a play on an osu!standard map: the maximum combo so
/// far and the number of hits of each judgement.
#[derive(Clone, Copy, Debug, PartialEq, Eq, Structural)]
pub struct OsuScoreState {
    /// The maximum combo of the play so far.
    pub max_combo: u32,
    /// The number of great hits.
    pub n300: u32,
    /// The number of ok hits.
    pub n100: u32,
    /// The number of meh hits.
    pub n50: u32,
    /// The number of misses.
    pub misses: u32,
}

impl OsuScoreState {
    /// The number of hit objects the state accounts for.
    pub open spec fn spec_total_hits(&self) -> int {
        self.n300 + self.n100 + self.n50 + self.misses
    }

    /// The accuracy of the state as an exact fraction: each great hit
    /// weighs 6, each ok hit 2, each meh hit 1, out of 6 per object.
    /// An empty state counts as zero accuracy.
    pub open spec fn spec_accuracy(&self) -> (int, int) {
        if self.spec_total_hits() == 0 {
            (0int, 1int)
        } else {
            (6 * self.n300 + 2 * self.n100 + self.n50, 6 * self.spec_total_hits())
        }
    }

    /// A state with every count at zero.
    pub fn new() -> (r: Self)
        ensures
            r == (OsuScoreState { max_combo: 0u32, n300: 0u32, n100: 0u32, n50: 0u32, misses: 0u32 }),
    {
        OsuScoreState { max_combo: 0, n300: 0, n100: 0, n50: 0, misses: 0 }
    }

    /// The number of hit objects the state accounts for.
    pub fn total_hits(&self) -> (r: u64)
        ensures
            r == self.spec_total_hits(),
    {
        self.n300 as u64 + self.n100 as u64 + self.n50 as u64 + self.misses as u64
    }

    /// The accuracy of the state, as a fraction of numerator and
    /// positive denominator.
    pub fn accuracy_fraction(&self) -> (r: (u64, u64))
        ensures
            r.0 == self.spec_accuracy().0,
            r.1 == self.spec_accuracy().1,
            r.1 >= 1,
            r.0 <= r.1,
    {
        let total = self.total_hits();

        if total == 0 {
            (0, 1)
        } else {
            (
                6 * (self.n300 as u64) + 2 * (self.n100 as u64) + (self.n50 as u64),
                6 * total,
            )
        }
    }
}

impl Default for OsuScoreState {
    /// The default state has every count at zero.
    fn default() -> (r: Self)
        ensures
            r == (OsuScoreState { max_combo: 0u32, n300: 0u32, n100: 0u32, n50: 0u32, misses: 0u32 }),
    {
        OsuScoreState::new()
    }
}

} // verus!
