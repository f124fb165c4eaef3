//! The performance calculator's hitresult synthesis.
//!
//! A caller describes a play partially: any of the judgement counts,
//! the combo, the number of misses, or a target accuracy. The
//! synthesis completes the description into a full [`OsuScoreState`].
//! When an accuracy target is given, the free judgement counts are
//! chosen so that the state's accuracy comes as close as possible to
//! the target; ties and left-over objects are settled by the chosen
//! [`HitResultPriority`]. Accuracy targets are exact fractions, so the
//! search arithmetic is exact as well.

use vstd::prelude::*;

use vstd::arithmetic::div_mod::{
    lemma_div_pos_is_pos, lemma_fundamental_div_mod, lemma_fundamental_div_mod_converse_div,
    lemma_mod_division_less_than_divisor,
};

use crate::attributes::OsuDifficultyAttributes;
use crate::math::{imax, imin};
use crate::score_state::OsuScoreState;

verus! {

/// How hitresults should be generated when the description of a play
/// leaves slack: the best case fills it with great hits, the worst
/// case with meh hits.
#[derive(Clone, Copy, Debug, PartialEq, Eq, Structural)]
pub enum HitResultPriority {
    /// Prefer the outcome with the highest accuracy.
    BestCase,
    /// Prefer the outcome with the lowest accuracy.
    WorstCase,
}

impl Default for HitResultPriority {
    /// The default priority is the best case.
    fn default() -> (r: Self)
        ensures
            r is BestCase,
    {
        HitResultPriority::BestCase
    }
}

/// An accuracy target as an exact fraction in `[0, 1]`.
#[derive(Clone, Copy, Debug, PartialEq, Eq, Structural)]
pub struct Accuracy {
    /// The numerator of the target.
    pub numer: u64,
    /// The positive denominator of the target.
    pub denom: u64,
}

impl Accuracy {
    /// The denominator is positive and the fraction is at most one.
    pub open spec fn wf(&self) -> bool {
        1 <= self.denom && self.numer <= self.denom
    }
}

/// The value of an optional count, defaulting to zero.
pub open spec fn opt0(o: Option<u32>) -> int {
    match o {
        Some(x) => x as int,
        None => 0,
    }
}

/// The floor of the fraction `rn / d`, saturated at zero.
pub open spec fn spec_floor_sat(rn: int, d: int) -> int {
    if rn <= 0 {
        0
    } else {
        rn / d
    }
}

/// The ceiling of the fraction `rn / d`, saturated at zero.
pub open spec fn spec_ceil_sat(rn: int, d: int) -> int {
    if rn <= 0 {
        0
    } else {
        (rn + d - 1) / d
    }
}

/// How far the weighted count `w` is from an accuracy target, on a
/// common denominator: the target is `tn / (6 n d)` of weight per
/// object and `w` compares as `|tn - w d|`.
pub open spec fn spec_dist(tn: int, d: int, w: int) -> int {
    if tn >= d * w {
        tn - d * w
    } else {
        d * w - tn
    }
}

/// The candidate the search keeps between the two ends of a window:
/// the lower end, unless the upper end lies strictly closer to the
/// target.
pub open spec fn spec_pick_hi(tn: int, d: int, lo: int, hi: int, wlo: int, whi: int) -> bool {
    hi > lo && spec_dist(tn, d, whi) < spec_dist(tn, d, wlo)
}

/// The best number of ok hits for a fixed number of great hits `x3`,
/// when no judgement count was specified: the remaining objects are
/// split between ok and meh hits. Returns the count and its distance.
pub open spec fn spec_inner_pick(tn: int, d: int, rem: int, x3: int) -> (int, int) {
    let rn = tn - d * (rem + 5 * x3);
    let lo = imin(spec_floor_sat(rn, d), rem - x3);
    let hi = imin(spec_ceil_sat(rn, d), rem - x3);
    let wlo = 5 * x3 + lo + rem;
    let whi = 5 * x3 + hi + rem;
    if spec_pick_hi(tn, d, lo, hi, wlo, whi) {
        (hi, spec_dist(tn, d, whi))
    } else {
        (lo, spec_dist(tn, d, wlo))
    }
}

/// The great, ok and meh hit counts the double search settles on when
/// no judgement count was specified.
pub open spec fn spec_search_none(tn: int, d: int, rem: int) -> (int, int, int) {
    let rn3 = tn - d * rem;
    let lo3 = imin(rem, spec_floor_sat(rn3, 5 * d));
    let hi3 = imin(rem, spec_ceil_sat(rn3, 5 * d));
    let pick_lo = spec_inner_pick(tn, d, rem, lo3);
    let pick_hi = spec_inner_pick(tn, d, rem, hi3);
    let use_hi = hi3 > lo3 && pick_hi.1 < pick_lo.1;
    let x3 = if use_hi {
        hi3
    } else {
        lo3
    };
    let x1 = if use_hi {
        pick_hi.0
    } else {
        pick_lo.0
    };
    (x3, x1, rem - x3 - x1)
}

/// Performance calculator on osu!standard maps: collects a partial
/// description of a play and synthesizes the matching score state.
#[derive(Clone, Copy, Debug, PartialEq, Eq, Structural)]
pub struct OsuPerformance {
    /// The difficulty attributes of the map the play was on.
    pub attrs: OsuDifficultyAttributes,
    /// A target accuracy, if one was given.
    pub acc: Option<Accuracy>,
    /// The maximum combo of the play, if given.
    pub combo: Option<u32>,
    /// The number of great hits, if given.
    pub n300: Option<u32>,
    /// The number of ok hits, if given.
    pub n100: Option<u32>,
    /// The number of meh hits, if given.
    pub n50: Option<u32>,
    /// The number of misses, if given.
    pub misses: Option<u32>,
    /// A cap on the number of passed objects, for partial plays.
    pub passed_objects: Option<u32>,
    /// How slack in the description is settled.
    pub hitresult_priority: HitResultPriority,
}

impl OsuPerformance {
    /// The calculator obtained from difficulty attributes alone:
    /// nothing about the play is specified yet.
    pub open spec fn spec_from_attrs(attrs: OsuDifficultyAttributes) -> OsuPerformance {
        OsuPerformance {
            attrs,
            acc: None,
            combo: None,
            n300: None,
            n100: None,
            n50: None,
            misses: None,
            passed_objects: None,
            hitresult_priority: HitResultPriority::BestCase,
        }
    }

    /// The accuracy target is well-formed if one was given.
    pub open spec fn wf(&self) -> bool {
        self.acc matches Some(a) ==> a.wf()
    }

    /// The number of objects the play runs over: the whole map, or the
    /// cap on passed objects if that is smaller.
    pub open spec fn s_n_objects(&self) -> int {
        let passed = match self.passed_objects {
            Some(x) => x as int,
            None => u32::MAX as int,
        };
        imin(passed, self.attrs.spec_n_objects())
    }

    /// The number of misses of the synthesized state.
    pub open spec fn s_misses(&self) -> int {
        imin(opt0(self.misses), self.s_n_objects())
    }

    /// The number of objects that were hit at all.
    pub open spec fn s_n_remaining(&self) -> int {
        self.s_n_objects() - self.s_misses()
    }

    /// The specified great hit count, clamped to the hit objects.
    pub open spec fn s_c3_init(&self) -> int {
        imin(opt0(self.n300), self.s_n_remaining())
    }

    /// The specified ok hit count, clamped to the hit objects.
    pub open spec fn s_c1_init(&self) -> int {
        imin(opt0(self.n100), self.s_n_remaining())
    }

    /// The specified meh hit count, clamped to the hit objects.
    pub open spec fn s_c5_init(&self) -> int {
        imin(opt0(self.n50), self.s_n_remaining())
    }

    /// The judgement counts synthesized towards an accuracy target of
    /// `tn / (6 n d)` weight per object.
    pub open spec fn s_counts_acc(&self, tn: int, d: int) -> (int, int, int) {
        let n = self.s_n_objects();
        let m = self.s_misses();
        let rem = self.s_n_remaining();
        let c3 = self.s_c3_init();
        let c1 = self.s_c1_init();
        let c5 = self.s_c5_init();
        if self.n300 is Some && self.n100 is Some && self.n50 is Some {
            let remaining = imax(n - (c3 + c1 + c5 + m), 0);
            if self.hitresult_priority is BestCase {
                (c3 + remaining, c1, c5)
            } else {
                (c3, c1, c5 + remaining)
            }
        } else if self.n300 is Some && self.n100 is Some {
            (c3, c1, imax(n - (c3 + c1 + m), 0))
        } else if self.n300 is Some && self.n50 is Some {
            (c3, imax(n - (c3 + c5 + m), 0), c5)
        } else if self.n100 is Some && self.n50 is Some {
            (imax(n - (c1 + c5 + m), 0), c1, c5)
        } else if self.n300 is Some {
            let rem2 = rem - c3;
            let rn = tn - d * (rem2 + 6 * c3);
            let lo = imin(rem2, spec_floor_sat(rn, d));
            let hi = imin(rem2, spec_ceil_sat(rn, d));
            let wlo = 6 * c3 + 2 * lo + (rem2 - lo);
            let whi = 6 * c3 + 2 * hi + (rem2 - hi);
            let pick = if spec_pick_hi(tn, d, lo, hi, wlo, whi) {
                hi
            } else {
                lo
            };
            (c3, pick, rem2 - pick)
        } else if self.n100 is Some {
            let rem2 = rem - c1;
            let rn = tn - d * (rem2 + 2 * c1);
            let lo = imin(rem2, spec_floor_sat(rn, 5 * d));
            let hi = imin(rem2, spec_ceil_sat(rn, 5 * d));
            let wlo = 6 * lo + 2 * c1 + (rem2 - lo);
            let whi = 6 * hi + 2 * c1 + (rem2 - hi);
            let pick = if spec_pick_hi(tn, d, lo, hi, wlo, whi) {
                hi
            } else {
                lo
            };
            (pick, c1, rem2 - pick)
        } else if self.n50 is Some {
            let rem2 = rem - c5;
            let rn = tn + d * (2 * m + c5) - d * (2 * n);
            let lo = imin(rem2, spec_floor_sat(rn, 4 * d));
            let hi = imin(rem2, spec_ceil_sat(rn, 4 * d));
            let wlo = 6 * lo + 2 * (rem2 - lo) + c5;
            let whi = 6 * hi + 2 * (rem2 - hi) + c5;
            let pick = if spec_pick_hi(tn, d, lo, hi, wlo, whi) {
                hi
            } else {
                lo
            };
            (pick, rem2 - pick, c5)
        } else {
            let t = spec_search_none(tn, d, rem);
            if self.hitresult_priority is BestCase {
                let k = imin(t.0, t.2 / 4);
                (t.0 - k, t.1 + 5 * k, t.2 - 4 * k)
            } else {
                let k = t.1 / 5;
                (t.0 + k, t.1 - 5 * k, t.2 + 4 * k)
            }
        }
    }

    /// The judgement counts when no accuracy target was given: the
    /// unhit objects fill the counts the caller left open, in the
    /// order the priority asks for.
    pub open spec fn s_counts_noacc(&self) -> (int, int, int) {
        let n = self.s_n_objects();
        let m = self.s_misses();
        let c3 = self.s_c3_init();
        let c1 = self.s_c1_init();
        let c5 = self.s_c5_init();
        let remaining = imax(n - (c3 + c1 + c5 + m), 0);
        if self.hitresult_priority is BestCase {
            if self.n300 is None {
                (remaining, c1, c5)
            } else if self.n100 is None {
                (c3, remaining, c5)
            } else if self.n50 is None {
                (c3, c1, remaining)
            } else {
                (c3 + remaining, c1, c5)
            }
        } else {
            if self.n50 is None {
                (c3, c1, remaining)
            } else if self.n100 is None {
                (c3, remaining, c5)
            } else if self.n300 is None {
                (remaining, c1, c5)
            } else {
                (c3, c1, c5 + remaining)
            }
        }
    }

    /// The judgement counts of the synthesized state.
    pub open spec fn s_counts(&self) -> (int, int, int) {
        match self.acc {
            Some(a) => self.s_counts_acc(a.numer * (6 * self.s_n_objects()), a.denom as int),
            None => self.s_counts_noacc(),
        }
    }

    /// The maximum combo of the synthesized state: the map's maximum
    /// combo less the misses, further capped by the specified combo.
    pub open spec fn s_max_combo(&self) -> int {
        let maxpos = imax(self.attrs.max_combo - self.s_misses(), 0);
        match self.combo {
            Some(c) => imin(c as int, maxpos),
            None => maxpos,
        }
    }
}


/// A denominator times a small count, without overflow.
fn mul_dn(d: u128, x: u64) -> (r: u128)
    requires
        d <= u64::MAX as u128,
        x < 0x100_0000_0000,
    ensures
        r == d * x,
        r < 0x1_0000_0000_0000_0000_0000_0000_0000,
{
    proof {
        assert(d * (x as u128) < 0x1_0000_0000_0000_0000_0000_0000_0000) by (nonlinear_arith)
            requires
                d <= u64::MAX as u128,
                x < 0x100_0000_0000,
        ;
    }

    d * (x as u128)
}

/// The distance of the weighted count `w` from the target, on the
/// common denominator.
fn acc_dist(tn: u128, d: u64, w: u64) -> (r: u128)
    requires
        w < 0x100_0000_0000,
    ensures
        r == spec_dist(tn as int, d as int, w as int),
{
    let wd: u128 = mul_dn(d as u128, w);

    if tn >= wd {
        tn - wd
    } else {
        wd - tn
    }
}

/// The window of candidate counts around the fraction
/// `(tn - sub) / d`: its floor and ceiling, saturated at zero and
/// capped at `cap`.
fn search_window(tn: u128, sub: u128, d: u128, cap: u64) -> (r: (u64, u64))
    requires
        1 <= d <= 0x80_0000_0000_0000_0000,
        tn <= 0x2_0000_0000_0000_0000_0000_0000_0000,
        sub <= 0x2_0000_0000_0000_0000_0000_0000_0000,
    ensures
        r.0 == imin(cap as int, spec_floor_sat(tn - sub, d as int)),
        r.1 == imin(cap as int, spec_ceil_sat(tn - sub, d as int)),
        r.0 <= cap,
        r.1 <= cap,
{
    if tn <= sub {
        (0, 0)
    } else {
        let diff = tn - sub;
        let fl = diff / d;
        let ce = (diff + (d - 1)) / d;
        let lo = if (cap as u128) <= fl {
            cap
        } else {
            fl as u64
        };
        let hi = if (cap as u128) <= ce {
            cap
        } else {
            ce as u64
        };

        (lo, hi)
    }
}

/// The best number of ok hits for a fixed number of great hits, when
/// no judgement count was specified, and its distance from the target.
fn inner_pick(tn: u128, d: u64, rem: u64, x3: u64) -> (r: (u64, u128))
    requires
        1 <= d,
        x3 <= rem,
        rem < 0x1_0000_0000,
        tn <= 0x1_0000_0000_0000_0000_0000_0000_0000,
    ensures
        r.0 == spec_inner_pick(tn as int, d as int, rem as int, x3 as int).0,
        r.1 == spec_inner_pick(tn as int, d as int, rem as int, x3 as int).1,
        r.0 <= rem - x3,
{
    let sub = mul_dn(d as u128, rem + 5 * x3);
    let (lo, hi) = search_window(tn, sub, d as u128, rem - x3);
    let wlo = 5 * x3 + lo + rem;
    let whi = 5 * x3 + hi + rem;
    let dlo = acc_dist(tn, d, wlo);
    let dhi = acc_dist(tn, d, whi);

    if hi > lo && dhi < dlo {
        (hi, dhi)
    } else {
        (lo, dlo)
    }
}

/// The great, ok and meh hit counts the double search settles on when
/// no judgement count was specified.
fn search_none(tn: u128, d: u64, rem: u64) -> (r: (u64, u64, u64))
    requires
        1 <= d,
        rem < 0x1_0000_0000,
        tn <= 0x1_0000_0000_0000_0000_0000_0000_0000,
    ensures
        r.0 == spec_search_none(tn as int, d as int, rem as int).0,
        r.1 == spec_search_none(tn as int, d as int, rem as int).1,
        r.2 == spec_search_none(tn as int, d as int, rem as int).2,
        r.0 + r.1 + r.2 == rem,
{
    let sub3 = mul_dn(d as u128, rem);
    proof {
        assert((d as u128) * 5 < 0x80_0000_0000_0000_0000) by (nonlinear_arith)
            requires
                d <= u64::MAX,
        ;
    }
    let d5: u128 = (d as u128) * 5;
    let (lo3, hi3) = search_window(tn, sub3, d5, rem);
    let pick_lo = inner_pick(tn, d, rem, lo3);
    let pick_hi = inner_pick(tn, d, rem, hi3);
    let use_hi = hi3 > lo3 && pick_hi.1 < pick_lo.1;
    let x3 = if use_hi {
        hi3
    } else {
        lo3
    };
    let x1 = if use_hi {
        pick_hi.0
    } else {
        pick_lo.0
    };

    (x3, x1, rem - x3 - x1)
}

impl OsuPerformance {
    /// Create a new performance calculator from the discrete
    /// difficulty attributes of the map.
    pub fn new(attrs: OsuDifficultyAttributes) -> (r: Self)
        ensures
            r == Self::spec_from_attrs(attrs),
    {
        OsuPerformance {
            attrs,
            acc: None,
            combo: None,
            n300: None,
            n100: None,
            n50: None,
            misses: None,
            passed_objects: None,
            hitresult_priority: HitResultPriority::BestCase,
        }
    }

    /// Specify the maximum combo of the play.
    pub fn combo(self, combo: u32) -> (r: Self)
        ensures
            r == (OsuPerformance { combo: Some(combo), ..self }),
    {
        OsuPerformance { combo: Some(combo), ..self }
    }

    /// Specify how hitresults should be generated.
    pub fn hitresult_priority(self, priority: HitResultPriority) -> (r: Self)
        ensures
            r == (OsuPerformance { hitresult_priority: priority, ..self }),
    {
        OsuPerformance { hitresult_priority: priority, ..self }
    }

    /// Specify the amount of great hits of the play.
    pub fn n300(self, n300: u32) -> (r: Self)
        ensures
            r == (OsuPerformance { n300: Some(n300), ..self }),
    {
        OsuPerformance { n300: Some(n300), ..self }
    }

    /// Specify the amount of ok hits of the play.
    pub fn n100(self, n100: u32) -> (r: Self)
        ensures
            r == (OsuPerformance { n100: Some(n100), ..self }),
    {
        OsuPerformance { n100: Some(n100), ..self }
    }

    /// Specify the amount of meh hits of the play.
    pub fn n50(self, n50: u32) -> (r: Self)
        ensures
            r == (OsuPerformance { n50: Some(n50), ..self }),
    {
        OsuPerformance { n50: Some(n50), ..self }
    }

    /// Specify the amount of misses of the play.
    pub fn misses(self, misses: u32) -> (r: Self)
        ensures
            r == (OsuPerformance { misses: Some(misses), ..self }),
    {
        OsuPerformance { misses: Some(misses), ..self }
    }

    /// Cap the amount of passed objects, for a partial play.
    pub fn passed_objects(self, passed_objects: u32) -> (r: Self)
        ensures
            r == (OsuPerformance { passed_objects: Some(passed_objects), ..self }),
    {
        OsuPerformance { passed_objects: Some(passed_objects), ..self }
    }

    /// Provide every count through an [`OsuScoreState`].
    pub fn state(self, state: OsuScoreState) -> (r: Self)
        ensures
            r == (OsuPerformance {
                combo: Some(state.max_combo),
                n300: Some(state.n300),
                n100: Some(state.n100),
                n50: Some(state.n50),
                misses: Some(state.misses),
                ..self
            }),
    {
        OsuPerformance {
            combo: Some(state.max_combo),
            n300: Some(state.n300),
            n100: Some(state.n100),
            n50: Some(state.n50),
            misses: Some(state.misses),
            ..self
        }
    }

    /// Specify the accuracy of the play as a fraction. Targets above
    /// one are clamped to one.
    pub fn accuracy(self, numer: u64, denom: u64) -> (r: Self)
        requires
            denom >= 1,
        ensures
            r == (OsuPerformance {
                acc: Some(
                    Accuracy {
                        numer: if numer <= denom {
                            numer
                        } else {
                            denom
                        },
                        denom,
                    },
                ),
                ..self
            }),
            r.wf(),
    {
        let clamped = if numer <= denom {
            numer
        } else {
            denom
        };

        OsuPerformance { acc: Some(Accuracy { numer: clamped, denom }), ..self }
    }

    /// The judgement counts synthesized towards the accuracy target.
    #[verifier::rlimit(100)]
    fn counts_with_acc(&self, a: Accuracy, n: u64, m: u64, rem: u64, c3: u64, c1: u64, c5: u64)
        -> (r: (u64, u64, u64))
        requires
            a.wf(),
            self.acc == Some(a),
            n == self.s_n_objects(),
            m == self.s_misses(),
            rem == self.s_n_remaining(),
            c3 == self.s_c3_init(),
            c1 == self.s_c1_init(),
            c5 == self.s_c5_init(),
            n < 0x1_0000_0000,
        ensures
            r.0 == self.s_counts().0,
            r.1 == self.s_counts().1,
            r.2 == self.s_counts().2,
            r.0 <= n,
            r.1 <= n,
            r.2 <= n,
    {
        let n6: u64 = 6 * n;
        proof {
            assert((a.numer as u128) * (n6 as u128)
                <= 0x1_0000_0000_0000_0000_0000_0000_0000) by (nonlinear_arith)
                requires
                    a.numer <= u64::MAX,
                    n6 < 0x100_0000_0000,
            ;
        }
        let tn: u128 = (a.numer as u128) * (n6 as u128);
        let d: u64 = a.denom;
        let d128: u128 = d as u128;

        match (self.n300, self.n100, self.n50) {
            (Some(_), Some(_), Some(_)) => {
                let remaining: u64 = if n >= c3 + c1 + c5 + m {
                    n - (c3 + c1 + c5 + m)
                } else {
                    0
                };
                match self.hitresult_priority {
                    HitResultPriority::BestCase => (c3 + remaining, c1, c5),
                    HitResultPriority::WorstCase => (c3, c1, c5 + remaining),
                }
            }
            (Some(_), Some(_), None) => {
                let filled: u64 = if n >= c3 + c1 + m {
                    n - (c3 + c1 + m)
                } else {
                    0
                };
                (c3, c1, filled)
            }
            (Some(_), None, Some(_)) => {
                let filled: u64 = if n >= c3 + c5 + m {
                    n - (c3 + c5 + m)
                } else {
                    0
                };
                (c3, filled, c5)
            }
            (None, Some(_), Some(_)) => {
                let filled: u64 = if n >= c1 + c5 + m {
                    n - (c1 + c5 + m)
                } else {
                    0
                };
                (filled, c1, c5)
            }
            (Some(_), None, None) => {
                let rem2: u64 = rem - c3;
                let sub = mul_dn(d128, rem2 + 6 * c3);
                let (lo, hi) = search_window(tn, sub, d128, rem2);
                let wlo: u64 = 6 * c3 + 2 * lo + (rem2 - lo);
                let whi: u64 = 6 * c3 + 2 * hi + (rem2 - hi);
                let pick: u64 = if hi > lo && acc_dist(tn, d, whi) < acc_dist(tn, d, wlo) {
                    hi
                } else {
                    lo
                };
                (c3, pick, rem2 - pick)
            }
            (None, Some(_), None) => {
                let rem2: u64 = rem - c1;
                let sub = mul_dn(d128, rem2 + 2 * c1);
                proof {
                    assert(d128 * 5 < 0x80_0000_0000_0000_0000) by (nonlinear_arith)
                        requires
                            d128 <= u64::MAX,
                    ;
                }
                let (lo, hi) = search_window(tn, sub, d128 * 5, rem2);
                let wlo: u64 = 6 * lo + 2 * c1 + (rem2 - lo);
                let whi: u64 = 6 * hi + 2 * c1 + (rem2 - hi);
                let pick: u64 = if hi > lo && acc_dist(tn, d, whi) < acc_dist(tn, d, wlo) {
                    hi
                } else {
                    lo
                };
                (pick, c1, rem2 - pick)
            }
            (None, None, Some(_)) => {
                let rem2: u64 = rem - c5;
                let lhs: u128 = tn + mul_dn(d128, 2 * m + c5);
                let sub: u128 = mul_dn(d128, 2 * n);
                proof {
                    assert(d128 * 4 < 0x80_0000_0000_0000_0000) by (nonlinear_arith)
                        requires
                            d128 <= u64::MAX,
                    ;
                }
                let (lo, hi) = search_window(lhs, sub, d128 * 4, rem2);
                let wlo: u64 = 6 * lo + 2 * (rem2 - lo) + c5;
                let whi: u64 = 6 * hi + 2 * (rem2 - hi) + c5;
                let pick: u64 = if hi > lo && acc_dist(tn, d, whi) < acc_dist(tn, d, wlo) {
                    hi
                } else {
                    lo
                };
                (pick, rem2 - pick, c5)
            }
            (None, None, None) => {
                let t = search_none(tn, d, rem);
                match self.hitresult_priority {
                    HitResultPriority::BestCase => {
                        let quarter: u64 = t.2 / 4;
                        let k: u64 = if t.0 <= quarter {
                            t.0
                        } else {
                            quarter
                        };
                        assert(4 * k <= t.2);
                        (t.0 - k, t.1 + 5 * k, t.2 - 4 * k)
                    }
                    HitResultPriority::WorstCase => {
                        let k: u64 = t.1 / 5;
                        assert(5 * k <= t.1);
                        (t.0 + k, t.1 - 5 * k, t.2 + 4 * k)
                    }
                }
            }
        }
    }

    /// The judgement counts when no accuracy target was given.
    fn counts_without_acc(&self, n: u64, m: u64, rem: u64, c3: u64, c1: u64, c5: u64)
        -> (r: (u64, u64, u64))
        requires
            self.acc is None,
            n == self.s_n_objects(),
            m == self.s_misses(),
            rem == self.s_n_remaining(),
            c3 == self.s_c3_init(),
            c1 == self.s_c1_init(),
            c5 == self.s_c5_init(),
            n < 0x1_0000_0000,
        ensures
            r.0 == self.s_counts().0,
            r.1 == self.s_counts().1,
            r.2 == self.s_counts().2,
            r.0 <= n,
            r.1 <= n,
            r.2 <= n,
    {
        let remaining: u64 = if n >= c3 + c1 + c5 + m {
            n - (c3 + c1 + c5 + m)
        } else {
            0
        };

        match self.hitresult_priority {
            HitResultPriority::BestCase => match (self.n300, self.n100, self.n50) {
                (None, _, _) => (remaining, c1, c5),
                (_, None, _) => (c3, remaining, c5),
                (_, _, None) => (c3, c1, remaining),
                _ => (c3 + remaining, c1, c5),
            },
            HitResultPriority::WorstCase => match (self.n50, self.n100, self.n300) {
                (None, _, _) => (c3, c1, remaining),
                (_, None, _) => (c3, remaining, c5),
                (_, _, None) => (remaining, c1, c5),
                _ => (c3, c1, c5 + remaining),
            },
        }
    }

    /// Create the [`OsuScoreState`] the description synthesizes to.
    #[verifier::rlimit(100)]
    pub fn generate_state(&self) -> (r: OsuScoreState)
        requires
            self.wf(),
        ensures
            r.misses == self.s_misses(),
            r.n300 == self.s_counts().0,
            r.n100 == self.s_counts().1,
            r.n50 == self.s_counts().2,
            r.max_combo == self.s_max_combo(),
            r.misses <= self.s_n_objects(),
            r.max_combo <= self.attrs.max_combo,
            r.n300 <= self.s_n_objects(),
            r.n100 <= self.s_n_objects(),
            r.n50 <= self.s_n_objects(),
    {
        let sum: u64 = self.attrs.n_circles as u64 + self.attrs.n_sliders as u64
            + self.attrs.n_spinners as u64;
        let passed: u64 = match self.passed_objects {
            Some(x) => x as u64,
            None => u32::MAX as u64,
        };
        let n: u64 = if passed <= sum {
            passed
        } else {
            sum
        };

        let m: u64 = match self.misses {
            Some(x) => if (x as u64) <= n {
                x as u64
            } else {
                n
            },
            None => 0,
        };
        let rem: u64 = n - m;

        let c3: u64 = match self.n300 {
            Some(x) => if (x as u64) <= rem {
                x as u64
            } else {
                rem
            },
            None => 0,
        };
        let c1: u64 = match self.n100 {
            Some(x) => if (x as u64) <= rem {
                x as u64
            } else {
                rem
            },
            None => 0,
        };
        let c5: u64 = match self.n50 {
            Some(x) => if (x as u64) <= rem {
                x as u64
            } else {
                rem
            },
            None => 0,
        };

        let counts: (u64, u64, u64) = match self.acc {
            Some(a) => self.counts_with_acc(a, n, m, rem, c3, c1, c5),
            None => self.counts_without_acc(n, m, rem, c3, c1, c5),
        };

        let maxpos: u64 = if (self.attrs.max_combo as u64) >= m {
            self.attrs.max_combo as u64 - m
        } else {
            0
        };
        let combo_out: u64 = match self.combo {
            Some(c) => if (c as u64) <= maxpos {
                c as u64
            } else {
                maxpos
            },
            None => maxpos,
        };

        OsuScoreState {
            max_combo: combo_out as u32,
            n300: counts.0 as u32,
            n100: counts.1 as u32,
            n50: counts.2 as u32,
            misses: m as u32,
        }
    }
}


/// Law: the synthesized maximum combo leaves room for the misses.
///
/// On any map whose maximum combo covers its objects — every hit
/// object contributes at least one combo step — the synthesized
/// state's combo plus its misses never exceed the map's maximum
/// combo.
pub proof fn lemma_combo_upper_bound(p: OsuPerformance)
    requires
        p.attrs.max_combo >= p.attrs.spec_n_objects(),
    ensures
        p.s_max_combo() + p.s_misses() <= p.attrs.max_combo,
{
}

/// Law: hitresult accounting.
///
/// Whenever the specified counts fit into the play — their sum stays
/// within the objects the play runs over — the synthesized judgement
/// counts and misses add up to exactly the number of objects.
#[verifier::rlimit(100)]
pub proof fn lemma_hitresult_accounting(p: OsuPerformance)
    requires
        p.wf(),
        opt0(p.n300) + opt0(p.n100) + opt0(p.n50) + opt0(p.misses) <= p.s_n_objects(),
    ensures
        p.s_counts().0 + p.s_counts().1 + p.s_counts().2 + p.s_misses() == p.s_n_objects(),
{
}

/// Law: hitresult accounting with open counts.
///
/// When an accuracy target is given and at most one judgement count
/// is specified, the search splits exactly the objects that were not
/// missed, so the synthesized counts and misses always add up to the
/// number of objects, whatever else was specified.
#[verifier::rlimit(100)]
pub proof fn lemma_hitresult_accounting_open(p: OsuPerformance)
    requires
        p.wf(),
        p.acc is Some,
        (p.n300 is None && p.n100 is None) || (p.n300 is None && p.n50 is None) || (p.n100 is None
            && p.n50 is None),
    ensures
        p.s_counts().0 + p.s_counts().1 + p.s_counts().2 + p.s_misses() == p.s_n_objects(),
{
}

/// Law: the best-case priority never yields a lower accuracy than the
/// worst-case priority.
///
/// For an accuracy target with no explicit judgement counts, the two
/// priorities settle on states with the same weighted hit count and
/// the same total, so their accuracies coincide; in particular the
/// best case is never below the worst case.
#[verifier::rlimit(100)]
pub proof fn lemma_priority_accuracy(base: OsuPerformance)
    requires
        base.wf(),
        base.acc is Some,
        base.n300 is None,
        base.n100 is None,
        base.n50 is None,
    ensures
        ({
            let best = (OsuPerformance {
                hitresult_priority: HitResultPriority::BestCase,
                ..base
            }).s_counts();
            let worst = (OsuPerformance {
                hitresult_priority: HitResultPriority::WorstCase,
                ..base
            }).s_counts();
            &&& 6 * best.0 + 2 * best.1 + best.2 == 6 * worst.0 + 2 * worst.1 + worst.2
            &&& best.0 + best.1 + best.2 == worst.0 + worst.1 + worst.2
        }),
{
}


/// The saturated, capped window around the fraction `rn / d` contains
/// a count at least as close to the target as any other count in
/// `[0, cap]`.
proof fn lemma_window_min(rn: int, d: int, cap: int, x: int)
    requires
        1 <= d,
        0 <= cap,
        0 <= x <= cap,
    ensures
        spec_floor_sat(rn, d) <= spec_ceil_sat(rn, d),
        ({
            let lo = imin(cap, spec_floor_sat(rn, d));
            let hi = imin(cap, spec_ceil_sat(rn, d));
            spec_dist(rn, d, lo) <= spec_dist(rn, d, x) || spec_dist(rn, d, hi) <= spec_dist(
                rn,
                d,
                x,
            )
        }),
{
    if rn <= 0 {
        // Both window ends saturate at zero; any larger count only
        // moves further beyond the target.
        assert(d * 0 == 0) by (nonlinear_arith);
        assert(d * x >= 0) by (nonlinear_arith)
            requires
                d >= 1,
                x >= 0,
        ;
    } else {
        let q = rn / d;
        let r = rn % d;
        lemma_fundamental_div_mod(rn, d);
        lemma_mod_division_less_than_divisor(rn, d);
        lemma_div_pos_is_pos(rn, d);
        assert(rn == d * q + r);
        assert(d * q == q * d) by (nonlinear_arith);

        if r == 0 {
            // The target is the exact multiple `d * q`: the ceiling
            // agrees with the floor.
            lemma_fundamental_div_mod_converse_div(rn + d - 1, d, q, d - 1);
            assert(spec_ceil_sat(rn, d) == q);
        } else {
            assert(rn + d - 1 == (q + 1) * d + (r - 1)) by (nonlinear_arith)
                requires
                    rn == q * d + r,
            ;
            lemma_fundamental_div_mod_converse_div(rn + d - 1, d, q + 1, r - 1);
            assert(spec_ceil_sat(rn, d) == q + 1);
        }

        if cap <= q {
            // The whole window clamps to the cap, and every count up
            // to the cap stays below the target.
            assert(d * x <= d * cap) by (nonlinear_arith)
                requires
                    d >= 1,
                    x <= cap,
            ;
            assert(d * cap <= d * q) by (nonlinear_arith)
                requires
                    d >= 1,
                    cap <= q,
            ;
        } else {
            if r == 0 {
                // The floor hits the target exactly.
                assert(spec_dist(rn, d, q) == 0);
            } else {
                assert(d * (q + 1) == d * q + d) by (nonlinear_arith);

                if x <= q {
                    assert(d * x <= d * q) by (nonlinear_arith)
                        requires
                            d >= 1,
                            x <= q,
                    ;
                } else {
                    assert(d * x >= d * (q + 1)) by (nonlinear_arith)
                        requires
                            d >= 1,
                            x >= q + 1,
                    ;
                }
            }
        }
    }
}



/// How far a weighted hit count `w` lies from the accuracy target of
/// the description, on the common denominator of the comparison.
pub open spec fn spec_target_dist(p: OsuPerformance, w: int) -> int {
    let a = p.acc.unwrap();
    spec_dist(a.numer * (6 * p.s_n_objects()), a.denom as int, w)
}

/// The weighted hit count of the synthesized judgement counts: six
/// per great hit, two per ok hit, one per meh hit.
pub open spec fn spec_chosen_weight(p: OsuPerformance) -> int {
    let c = p.s_counts();
    6 * c.0 + 2 * c.1 + c.2
}

/// Law: optimal accuracy matching with the great hit count given.
///
/// When an accuracy target and the great hit count are specified but
/// the ok and meh counts are free, the synthesized state's weighted
/// hit count lies at least as close to the target as that of any
/// other split `x` of the remaining objects into ok and meh hits.
pub proof fn lemma_accuracy_optimal_given_n300(p: OsuPerformance, x: int)
    requires
        p.wf(),
        p.acc is Some,
        p.n300 is Some,
        p.n100 is None,
        p.n50 is None,
        0 <= x <= p.s_n_remaining() - p.s_c3_init(),
    ensures
        spec_target_dist(p, spec_chosen_weight(p)) <= spec_target_dist(
            p,
            6 * p.s_c3_init() + 2 * x + (p.s_n_remaining() - p.s_c3_init() - x),
        ),
{
    let a = p.acc.unwrap();
    let tn = a.numer * (6 * p.s_n_objects());
    let d = a.denom as int;
    let c3 = p.s_c3_init();
    let rem2 = p.s_n_remaining() - c3;
    let b = rem2 + 6 * c3;
    let rn = tn - d * b;

    lemma_window_min(rn, d, rem2, x);

    let lo = imin(rem2, spec_floor_sat(rn, d));
    let hi = imin(rem2, spec_ceil_sat(rn, d));
    assert(d * (lo + b) == d * lo + d * b) by (nonlinear_arith);
    assert(d * (hi + b) == d * hi + d * b) by (nonlinear_arith);
    assert(d * (x + b) == d * x + d * b) by (nonlinear_arith);
    assert(spec_dist(tn, d, lo + b) == spec_dist(rn, d, lo));
    assert(spec_dist(tn, d, hi + b) == spec_dist(rn, d, hi));
    assert(spec_dist(tn, d, x + b) == spec_dist(rn, d, x));

    let wlo = 6 * c3 + 2 * lo + (rem2 - lo);
    let whi = 6 * c3 + 2 * hi + (rem2 - hi);
    assert(wlo == lo + b);
    assert(whi == hi + b);
    let pick = if spec_pick_hi(tn, d, lo, hi, wlo, whi) {
        hi
    } else {
        lo
    };
    if spec_pick_hi(tn, d, lo, hi, wlo, whi) {
        assert(spec_dist(rn, d, hi) < spec_dist(rn, d, lo));
        assert(spec_dist(rn, d, pick) <= spec_dist(rn, d, x));
    } else {
        assert(hi > lo ==> spec_dist(rn, d, lo) <= spec_dist(rn, d, hi));
        assert(hi <= lo ==> hi == lo);
        assert(spec_dist(rn, d, pick) <= spec_dist(rn, d, x));
    }
    assert(p.s_counts() == (c3, pick, rem2 - pick));
    assert(spec_chosen_weight(p) == pick + b);
    assert(spec_dist(tn, d, pick + b) <= spec_dist(tn, d, x + b));
}

/// Law: optimal accuracy matching with the ok hit count given.
///
/// When an accuracy target and the ok hit count are specified but the
/// great and meh counts are free, the synthesized state's weighted
/// hit count lies at least as close to the target as that of any
/// other split `x` of the remaining objects into great and meh hits.
pub proof fn lemma_accuracy_optimal_given_n100(p: OsuPerformance, x: int)
    requires
        p.wf(),
        p.acc is Some,
        p.n300 is None,
        p.n100 is Some,
        p.n50 is None,
        0 <= x <= p.s_n_remaining() - p.s_c1_init(),
    ensures
        spec_target_dist(p, spec_chosen_weight(p)) <= spec_target_dist(
            p,
            6 * x + 2 * p.s_c1_init() + (p.s_n_remaining() - p.s_c1_init() - x),
        ),
{
    let a = p.acc.unwrap();
    let tn = a.numer * (6 * p.s_n_objects());
    let d = a.denom as int;
    let c1 = p.s_c1_init();
    let rem2 = p.s_n_remaining() - c1;
    let b = rem2 + 2 * c1;
    let rn = tn - d * b;

    lemma_window_min(rn, 5 * d, rem2, x);

    let lo = imin(rem2, spec_floor_sat(rn, 5 * d));
    let hi = imin(rem2, spec_ceil_sat(rn, 5 * d));
    assert(d * (5 * lo + b) == (5 * d) * lo + d * b) by (nonlinear_arith);
    assert(d * (5 * hi + b) == (5 * d) * hi + d * b) by (nonlinear_arith);
    assert(d * (5 * x + b) == (5 * d) * x + d * b) by (nonlinear_arith);
    assert(spec_dist(tn, d, 5 * lo + b) == spec_dist(rn, 5 * d, lo));
    assert(spec_dist(tn, d, 5 * hi + b) == spec_dist(rn, 5 * d, hi));
    assert(spec_dist(tn, d, 5 * x + b) == spec_dist(rn, 5 * d, x));

    let wlo = 6 * lo + 2 * c1 + (rem2 - lo);
    let whi = 6 * hi + 2 * c1 + (rem2 - hi);
    assert(wlo == 5 * lo + b);
    assert(whi == 5 * hi + b);
    let pick = if spec_pick_hi(tn, d, lo, hi, wlo, whi) {
        hi
    } else {
        lo
    };
    if spec_pick_hi(tn, d, lo, hi, wlo, whi) {
        assert(spec_dist(rn, 5 * d, hi) < spec_dist(rn, 5 * d, lo));
        assert(spec_dist(rn, 5 * d, pick) <= spec_dist(rn, 5 * d, x));
    } else {
        assert(hi > lo ==> spec_dist(rn, 5 * d, lo) <= spec_dist(rn, 5 * d, hi));
        assert(hi <= lo ==> hi == lo);
        assert(spec_dist(rn, 5 * d, pick) <= spec_dist(rn, 5 * d, x));
    }
    assert(p.s_counts() == (pick, c1, rem2 - pick));
    assert(spec_chosen_weight(p) == 5 * pick + b);
    assert(spec_dist(tn, d, 5 * pick + b) <= spec_dist(tn, d, 5 * x + b));
}

/// Law: optimal accuracy matching with the meh hit count given.
///
/// When an accuracy target and the meh hit count are specified but
/// the great and ok counts are free, the synthesized state's weighted
/// hit count lies at least as close to the target as that of any
/// other split `x` of the remaining objects into great and ok hits.
pub proof fn lemma_accuracy_optimal_given_n50(p: OsuPerformance, x: int)
    requires
        p.wf(),
        p.acc is Some,
        p.n300 is None,
        p.n100 is None,
        p.n50 is Some,
        0 <= x <= p.s_n_remaining() - p.s_c5_init(),
    ensures
        spec_target_dist(p, spec_chosen_weight(p)) <= spec_target_dist(
            p,
            6 * x + 2 * (p.s_n_remaining() - p.s_c5_init() - x) + p.s_c5_init(),
        ),
{
    let a = p.acc.unwrap();
    let tn = a.numer * (6 * p.s_n_objects());
    let d = a.denom as int;
    let n = p.s_n_objects();
    let m = p.s_misses();
    let c5 = p.s_c5_init();
    let rem2 = p.s_n_remaining() - c5;
    let b = 2 * rem2 + c5;
    let rn = tn + d * (2 * m + c5) - d * (2 * n);

    assert(rn == tn - d * b) by (nonlinear_arith)
        requires
            rn == tn + d * (2 * m + c5) - d * (2 * n),
            b == 2 * rem2 + c5,
            rem2 == n - m - c5,
    ;

    lemma_window_min(rn, 4 * d, rem2, x);

    let lo = imin(rem2, spec_floor_sat(rn, 4 * d));
    let hi = imin(rem2, spec_ceil_sat(rn, 4 * d));
    assert(d * (4 * lo + b) == (4 * d) * lo + d * b) by (nonlinear_arith);
    assert(d * (4 * hi + b) == (4 * d) * hi + d * b) by (nonlinear_arith);
    assert(d * (4 * x + b) == (4 * d) * x + d * b) by (nonlinear_arith);
    assert(spec_dist(tn, d, 4 * lo + b) == spec_dist(rn, 4 * d, lo));
    assert(spec_dist(tn, d, 4 * hi + b) == spec_dist(rn, 4 * d, hi));
    assert(spec_dist(tn, d, 4 * x + b) == spec_dist(rn, 4 * d, x));

    let wlo = 6 * lo + 2 * (rem2 - lo) + c5;
    let whi = 6 * hi + 2 * (rem2 - hi) + c5;
    assert(wlo == 4 * lo + b);
    assert(whi == 4 * hi + b);
    let pick = if spec_pick_hi(tn, d, lo, hi, wlo, whi) {
        hi
    } else {
        lo
    };
    if spec_pick_hi(tn, d, lo, hi, wlo, whi) {
        assert(spec_dist(rn, 4 * d, hi) < spec_dist(rn, 4 * d, lo));
        assert(spec_dist(rn, 4 * d, pick) <= spec_dist(rn, 4 * d, x));
    } else {
        assert(hi > lo ==> spec_dist(rn, 4 * d, lo) <= spec_dist(rn, 4 * d, hi));
        assert(hi <= lo ==> hi == lo);
        assert(spec_dist(rn, 4 * d, pick) <= spec_dist(rn, 4 * d, x));
    }
    assert(p.s_counts() == (pick, rem2 - pick, c5));
    assert(spec_chosen_weight(p) == 4 * pick + b);
    assert(spec_dist(tn, d, 4 * pick + b) <= spec_dist(tn, d, 4 * x + b));
}


/// For a fixed number of great hits, the inner search's split of the
/// leftover objects into ok and meh hits is optimal, and the distance
/// it reports belongs to the count it returns.
proof fn lemma_inner_pick_opt(tn: int, d: int, rem: int, x3: int, y1: int)
    requires
        1 <= d,
        0 <= x3 <= rem,
        0 <= y1 <= rem - x3,
    ensures
        spec_inner_pick(tn, d, rem, x3).1 <= spec_dist(tn, d, 5 * x3 + y1 + rem),
        spec_inner_pick(tn, d, rem, x3).1 == spec_dist(
            tn,
            d,
            5 * x3 + spec_inner_pick(tn, d, rem, x3).0 + rem,
        ),
        0 <= spec_inner_pick(tn, d, rem, x3).0 <= rem - x3,
{
    let rn = tn - d * (rem + 5 * x3);

    lemma_window_min(rn, d, rem - x3, y1);

    let lo = imin(spec_floor_sat(rn, d), rem - x3);
    let hi = imin(spec_ceil_sat(rn, d), rem - x3);
    assert(d * (5 * x3 + lo + rem) == d * lo + d * (rem + 5 * x3)) by (nonlinear_arith);
    assert(d * (5 * x3 + hi + rem) == d * hi + d * (rem + 5 * x3)) by (nonlinear_arith);
    assert(d * (5 * x3 + y1 + rem) == d * y1 + d * (rem + 5 * x3)) by (nonlinear_arith);
    assert(spec_dist(tn, d, 5 * x3 + lo + rem) == spec_dist(rn, d, lo));
    assert(spec_dist(tn, d, 5 * x3 + hi + rem) == spec_dist(rn, d, hi));
    assert(spec_dist(tn, d, 5 * x3 + y1 + rem) == spec_dist(rn, d, y1));

    let wlo = 5 * x3 + lo + rem;
    let whi = 5 * x3 + hi + rem;
    let pick = if spec_pick_hi(tn, d, lo, hi, wlo, whi) {
        hi
    } else {
        lo
    };

    if spec_pick_hi(tn, d, lo, hi, wlo, whi) {
        assert(spec_dist(rn, d, hi) < spec_dist(rn, d, lo));
        assert(spec_dist(rn, d, pick) <= spec_dist(rn, d, y1));
    } else {
        assert(hi > lo ==> spec_dist(rn, d, lo) <= spec_dist(rn, d, hi));
        assert(hi <= lo ==> hi == lo);
        assert(spec_dist(rn, d, pick) <= spec_dist(rn, d, y1));
    }
}


/// Law: optimal accuracy matching with no judgement count given.
///
/// When only an accuracy target is specified, the double search picks
/// the great, ok and meh hit counts whose weighted hit count lies at
/// least as close to the target as that of any other split
/// `(y3, y1)` of the objects that were not missed; the priority shift
/// applied afterwards does not change the weighted count.
#[verifier::rlimit(100)]
pub proof fn lemma_accuracy_optimal_open(p: OsuPerformance, y3: int, y1: int)
    requires
        p.wf(),
        p.acc is Some,
        p.n300 is None,
        p.n100 is None,
        p.n50 is None,
        0 <= y3,
        0 <= y1,
        y3 + y1 <= p.s_n_remaining(),
    ensures
        spec_target_dist(p, spec_chosen_weight(p)) <= spec_target_dist(
            p,
            6 * y3 + 2 * y1 + (p.s_n_remaining() - y3 - y1),
        ),
{
    let a = p.acc.unwrap();
    let tn = a.numer * (6 * p.s_n_objects());
    let d = a.denom as int;
    let rem = p.s_n_remaining();
    let rn3 = tn - d * rem;

    assert(tn >= 0) by (nonlinear_arith)
        requires
            a.numer >= 0,
            6 * p.s_n_objects() >= 0,
            tn == a.numer * (6 * p.s_n_objects()),
    ;

    let t = spec_search_none(tn, d, rem);
    let lo3 = imin(rem, spec_floor_sat(rn3, 5 * d));
    let hi3 = imin(rem, spec_ceil_sat(rn3, 5 * d));
    let pl = spec_inner_pick(tn, d, rem, lo3);
    let ph = spec_inner_pick(tn, d, rem, hi3);

    // The window around the great hit count is ordered and feasible.
    lemma_window_min(rn3, 5 * d, rem, 0);
    assert(0 <= lo3 <= rem);
    assert(lo3 <= hi3 <= rem);

    lemma_inner_pick_opt(tn, d, rem, lo3, 0);
    lemma_inner_pick_opt(tn, d, rem, hi3, 0);

    // The distance of the settled counts is the better of the two
    // inner picks, and the priority shift keeps the weighted count.
    let dc = if hi3 > lo3 && ph.1 < pl.1 {
        ph.1
    } else {
        pl.1
    };
    assert(spec_chosen_weight(p) == 5 * t.0 + t.1 + rem);
    assert(spec_target_dist(p, spec_chosen_weight(p)) == dc);
    assert(dc <= pl.1);
    assert(dc <= ph.1);

    let w_other = 6 * y3 + 2 * y1 + (rem - y3 - y1);
    assert(w_other == 5 * y3 + y1 + rem);

    if rn3 <= 0 {
        // The target sits at or below hitting everything as meh: the
        // search settles on no great and no ok hits, and any other
        // split only overshoots further.
        assert(spec_floor_sat(rn3, 5 * d) == 0);
        assert(lo3 == 0 && hi3 == 0);
        lemma_inner_pick_opt(tn, d, rem, 0, y1);
        assert(d * (5 * y3 + y1 + rem) >= d * (y1 + rem)) by (nonlinear_arith)
            requires
                d >= 1,
                y3 >= 0,
        ;
        assert(d * (5 * 0 + y1 + rem) == d * (y1 + rem)) by (nonlinear_arith);
        assert(d * (y1 + rem) >= d * rem) by (nonlinear_arith)
            requires
                d >= 1,
                y1 >= 0,
        ;
        assert(spec_dist(tn, d, 5 * y3 + y1 + rem) >= spec_dist(tn, d, 5 * 0 + y1 + rem));
    } else {
        let q = rn3 / (5 * d);
        let r5 = rn3 % (5 * d);
        lemma_fundamental_div_mod(rn3, 5 * d);
        lemma_mod_division_less_than_divisor(rn3, 5 * d);
        lemma_div_pos_is_pos(rn3, 5 * d);
        assert(rn3 == (5 * d) * q + r5);
        assert(spec_floor_sat(rn3, 5 * d) == q);

        if q >= rem {
            // Even hitting everything great falls short of the
            // target: the search settles on all great hits, and any
            // other split falls shorter still.
            assert(lo3 == rem);
            assert(hi3 == rem);
            assert(pl.0 == 0);
            assert(d * (5 * y3 + y1 + rem) <= d * (5 * rem + 0 + rem)) by (nonlinear_arith)
                requires
                    d >= 1,
                    5 * y3 + y1 <= 5 * rem,
            ;
            assert(5 * y3 + y1 <= 5 * rem) by (nonlinear_arith)
                requires
                    0 <= y3,
                    0 <= y1,
                    y3 + y1 <= rem,
            ;
            assert(d * (5 * rem + 0 + rem) <= tn) by (nonlinear_arith)
                requires
                    rn3 == (5 * d) * q + r5,
                    rn3 == tn - d * rem,
                    r5 >= 0,
                    d >= 1,
                    rem <= q,
            ;
            assert(spec_dist(tn, d, 5 * y3 + y1 + rem) >= spec_dist(tn, d, 5 * rem + 0 + rem));
        } else {
            assert(lo3 == q);

            if y3 <= q {
                if 5 * y3 + y1 >= 5 * q {
                    // The split reaches past the windowed great count:
                    // rebalance it there without moving the weight.
                    let y1s = 5 * y3 + y1 - 5 * q;
                    assert(y1s <= rem - q);
                    lemma_inner_pick_opt(tn, d, rem, q, y1s);
                    assert(5 * q + y1s + rem == 5 * y3 + y1 + rem);
                } else {
                    // The split stays below the window: it is even
                    // further below the target.
                    assert(d * (5 * y3 + y1 + rem) <= d * (5 * q + 0 + rem)) by (nonlinear_arith)
                        requires
                            d >= 1,
                            5 * y3 + y1 <= 5 * q,
                    ;
                    assert(d * (5 * q + 0 + rem) <= tn) by (nonlinear_arith)
                        requires
                            rn3 == (5 * d) * q + r5,
                            rn3 == tn - d * rem,
                            r5 >= 0,
                    ;
                    assert(spec_dist(tn, d, 5 * y3 + y1 + rem) >= spec_dist(
                        tn,
                        d,
                        5 * q + 0 + rem,
                    ));
                }
            } else {
                // More great hits than the window: the split lies
                // beyond the target, no closer than the window's
                // upper end.
                if r5 == 0 {
                    // The window's lower end hits the target exactly.
                    assert(d * (rem + 5 * q) == (5 * d) * q + d * rem) by (nonlinear_arith);
                    assert(tn - d * (rem + 5 * q) == 0);
                    assert(spec_floor_sat(tn - d * (rem + 5 * q), d) == 0);
                    assert(pl.0 == 0);
                    assert(d * (5 * q + 0 + rem) == d * (rem + 5 * q)) by (nonlinear_arith);
                    assert(spec_dist(tn, d, 5 * q + 0 + rem) == 0);
                    assert(pl.1 == 0);
                } else {
                    assert(rn3 + 5 * d - 1 == (5 * d) * (q + 1) + (r5 - 1)) by (nonlinear_arith)
                        requires
                            rn3 == (5 * d) * q + r5,
                    ;
                    lemma_fundamental_div_mod_converse_div(rn3 + 5 * d - 1, 5 * d, q + 1, r5 - 1);
                    assert(spec_ceil_sat(rn3, 5 * d) == q + 1);
                    assert(hi3 == q + 1);
                    lemma_inner_pick_opt(tn, d, rem, q + 1, 0);
                    assert(d * (5 * y3 + y1 + rem) >= d * (5 * (q + 1) + 0 + rem))
                        by (nonlinear_arith)
                        requires
                            d >= 1,
                            5 * y3 + y1 >= 5 * (q + 1),
                    ;
                    assert(5 * y3 + y1 >= 5 * (q + 1)) by (nonlinear_arith)
                        requires
                            y3 >= q + 1,
                            y1 >= 0,
                    ;
                    assert(d * (5 * (q + 1) + 0 + rem) >= tn) by (nonlinear_arith)
                        requires
                            rn3 == (5 * d) * q + r5,
                            rn3 == tn - d * rem,
                            r5 < 5 * d,
                            d >= 1,
                    ;
                    assert(spec_dist(tn, d, 5 * y3 + y1 + rem) >= spec_dist(
                        tn,
                        d,
                        5 * (q + 1) + 0 + rem,
                    ));
                }
            }
        }
    }
}

} // verus!
