//! Beatmap attributes under modifiers.
//!
//! The four difficulty settings of a map are resolved in three steps:
//! the easy and hard-rock modifiers rescale them, the piecewise-linear
//! hit window tables turn approach rate and overall difficulty into
//! durations, and the clock rate stretches those durations. Settings
//! are handled in centi-units and durations in microseconds, so every
//! step is exact integer arithmetic; divisions truncate.

use vstd::prelude::*;

use crate::beatmap::BeatmapData;
use crate::difficulty::{spec_clamp_clock_rate, ModeDifficulty, CLOCK_RATE_MAX, CLOCK_RATE_MIN};
use crate::mode::GameMode;
use crate::mods::{spec_has_flag, EZ, HR};

verus! {

/// Largest setting value after modifiers, in centi-units (10.0).
pub const SETTING_CAP: i64 = 1000;

/// The hit window durations of a map, in microseconds, after clock
/// rate adjustment.
#[derive(Clone, Copy, Debug, PartialEq, Eq, Structural)]
pub struct HitWindows {
    /// How long an approach circle is visible (the preempt duration).
    pub ar: i64,
    /// How far off a hit may be to still count as a great hit.
    pub od: i64,
    /// The drain window derived from the health drain rate.
    pub hp: i64,
}

/// The resolved attributes of a map: settings after modifiers and
/// clock rate, in centi-units, and the hit windows.
#[derive(Clone, Copy, Debug, PartialEq, Eq, Structural)]
pub struct BeatmapAttributes {
    /// Approach rate equivalent to the adjusted preempt duration.
    pub ar: i64,
    /// Overall difficulty equivalent to the adjusted great window.
    pub od: i64,
    /// Circle size after modifiers; the clock does not touch it.
    pub cs: i64,
    /// Health drain rate after modifiers; the clock does not touch it.
    pub hp: i64,
    /// The clock rate that was applied, in permille.
    pub clock_rate: u32,
    /// The hit window durations.
    pub hit_windows: HitWindows,
}

/// A setting after the easy and hard-rock modifiers: easy halves it,
/// hard rock scales it by 1.4 and caps it at 10.
pub open spec fn spec_apply_mods(v: int, mods: u32, hr_scale_num: int) -> int {
    let eased = if spec_has_flag(mods, EZ) {
        v / 2
    } else {
        v
    };
    if spec_has_flag(mods, HR) {
        let raised = eased * hr_scale_num / 10;
        if raised > SETTING_CAP {
            SETTING_CAP as int
        } else {
            raised
        }
    } else {
        eased
    }
}

/// The preempt duration in microseconds for an approach rate in
/// centi-units: 1800 ms at AR 0, 1200 ms at AR 5, 450 ms at AR 10,
/// linear in between.
pub open spec fn spec_preempt(ar: int) -> int {
    if ar <= 500 {
        1_200_000 + 1200 * (500 - ar)
    } else {
        1_200_000 - 1500 * (ar - 500)
    }
}

/// The approach rate in centi-units whose preempt duration is closest
/// from below to the given one; inverse of the preempt table.
pub open spec fn spec_ar_from_preempt(preempt: int) -> int {
    if preempt > 1_200_000 {
        500 - (preempt - 1_200_000) / 1200
    } else {
        500 + (1_200_000 - preempt) / 1500
    }
}

/// The great hit window in microseconds for an overall difficulty in
/// centi-units: 80 ms at OD 0, 20 ms at OD 10, linear.
pub open spec fn spec_great_window(od: int) -> int {
    80_000 - 60 * od
}

/// The overall difficulty in centi-units for a great hit window in
/// microseconds; inverse of the window table, truncated toward zero.
pub open spec fn spec_od_from_window(window: int) -> int {
    if window <= 80_000 {
        (80_000 - window) / 60
    } else {
        -((window - 80_000) / 60)
    }
}

/// A duration stretched by the inverse clock rate: a faster clock
/// leaves less time to hit.
pub open spec fn spec_scale_window(window: int, clock_rate: u32) -> int {
    window * 1000 / (clock_rate as int)
}

/// A builder for [`BeatmapAttributes`], seeded with a map's settings.
#[derive(Clone, Copy, Debug, PartialEq, Eq, Structural)]
pub struct BeatmapAttributesBuilder {
    /// Approach rate, in centi-units, before modifiers.
    pub ar: i32,
    /// Circle size, in centi-units, before modifiers.
    pub cs: i32,
    /// Overall difficulty, in centi-units, before modifiers.
    pub od: i32,
    /// Health drain rate, in centi-units, before modifiers.
    pub hp: i32,
    /// The mode the map is attached to.
    pub mode: GameMode,
    /// The modifier bits.
    pub mods: u32,
    /// A clock rate override, in permille.
    pub clock_rate: Option<u32>,
}

impl BeatmapAttributesBuilder {
    /// The builder a map seeds: its settings, its mode, no modifiers.
    pub open spec fn spec_from_map(map: BeatmapData) -> BeatmapAttributesBuilder {
        BeatmapAttributesBuilder {
            ar: map.ar,
            cs: map.cs,
            od: map.od,
            hp: map.hp,
            mode: map.mode,
            mods: 0,
            clock_rate: None,
        }
    }

    /// The builder's settings are in the accepted range.
    pub open spec fn wf(&self) -> bool {
        &&& 0 <= self.ar <= SETTING_CAP
        &&& 0 <= self.cs <= SETTING_CAP
        &&& 0 <= self.od <= SETTING_CAP
        &&& 0 <= self.hp <= SETTING_CAP
        &&& (self.clock_rate matches Some(rate) ==> CLOCK_RATE_MIN <= rate <= CLOCK_RATE_MAX)
    }

    /// The effective clock rate, in permille: the override if one was
    /// given, else 1.0x. Modifier-implied rates are chosen by
    /// [`BeatmapAttributesBuilder::difficulty`].
    pub open spec fn spec_clock_rate(&self) -> u32 {
        match self.clock_rate {
            Some(rate) => rate,
            None => 1000u32,
        }
    }

    /// Seed a builder with a map's settings.
    pub fn from_map(map: &BeatmapData) -> (r: Self)
        ensures
            r == Self::spec_from_map(*map),
            map.wf() ==> r.wf(),
    {
        BeatmapAttributesBuilder {
            ar: map.ar,
            cs: map.cs,
            od: map.od,
            hp: map.hp,
            mode: map.mode,
            mods: 0,
            clock_rate: None,
        }
    }

    /// Specify modifiers through their bit values.
    pub fn mods(self, mods: u32) -> (r: Self)
        ensures
            r == (BeatmapAttributesBuilder { mods, ..self }),
    {
        BeatmapAttributesBuilder { mods, ..self }
    }

    /// Override the clock rate, in permille. Values outside the
    /// accepted range are clamped.
    pub fn clock_rate(self, clock_rate: u32) -> (r: Self)
        ensures
            r == (BeatmapAttributesBuilder {
                clock_rate: Some(spec_clamp_clock_rate(clock_rate)),
                ..self
            }),
    {
        let clamped: u32 = if clock_rate < CLOCK_RATE_MIN {
            CLOCK_RATE_MIN
        } else if clock_rate > CLOCK_RATE_MAX {
            CLOCK_RATE_MAX
        } else {
            clock_rate
        };

        BeatmapAttributesBuilder { clock_rate: Some(clamped), ..self }
    }

    /// Take the modifiers and the effective clock rate from the given
    /// difficulty settings.
    pub fn difficulty(self, difficulty: &ModeDifficulty) -> (r: Self)
        ensures
            r == (BeatmapAttributesBuilder {
                mods: difficulty.spec_mods(),
                clock_rate: Some(difficulty.spec_clock_rate()),
                ..self
            }),
    {
        BeatmapAttributesBuilder {
            mods: difficulty.get_mods(),
            clock_rate: Some(difficulty.get_clock_rate()),
            ..self
        }
    }

    /// Resolve the attributes: apply the modifiers to the settings,
    /// derive the hit windows, stretch them by the clock rate, and
    /// express the stretched approach rate and overall difficulty as
    /// settings again.
    pub fn build(&self) -> (r: BeatmapAttributes)
        requires
            self.wf(),
        ensures
            r.cs == spec_apply_mods(self.cs as int, self.mods, 13),
            r.hp == spec_apply_mods(self.hp as int, self.mods, 14),
            r.clock_rate == self.spec_clock_rate(),
            r.hit_windows.ar == spec_scale_window(
                spec_preempt(spec_apply_mods(self.ar as int, self.mods, 14)),
                self.spec_clock_rate(),
            ),
            r.hit_windows.od == spec_scale_window(
                spec_great_window(spec_apply_mods(self.od as int, self.mods, 14)),
                self.spec_clock_rate(),
            ),
            r.hit_windows.hp == spec_scale_window(
                spec_great_window(spec_apply_mods(self.hp as int, self.mods, 14)),
                self.spec_clock_rate(),
            ),
            r.ar == spec_ar_from_preempt(r.hit_windows.ar as int),
            r.od == spec_od_from_window(r.hit_windows.od as int),
    {
        let clock_rate = match self.clock_rate {
            Some(rate) => rate,
            None => 1000u32,
        };

        let ar = apply_mods(self.ar, self.mods, 14);
        let cs = apply_mods(self.cs, self.mods, 13);
        let od = apply_mods(self.od, self.mods, 14);
        let hp = apply_mods(self.hp, self.mods, 14);

        let preempt_raw: i64 = if ar <= 500 {
            1_200_000 + 1200 * (500 - ar)
        } else {
            1_200_000 - 1500 * (ar - 500)
        };
        let great_raw: i64 = 80_000 - 60 * od;
        let drain_raw: i64 = 80_000 - 60 * hp;

        let preempt: i64 = preempt_raw * 1000 / (clock_rate as i64);
        let great: i64 = great_raw * 1000 / (clock_rate as i64);
        let drain: i64 = drain_raw * 1000 / (clock_rate as i64);

        let ar_out: i64 = if preempt > 1_200_000 {
            500 - (preempt - 1_200_000) / 1200
        } else {
            500 + (1_200_000 - preempt) / 1500
        };
        let od_out: i64 = if great <= 80_000 {
            (80_000 - great) / 60
        } else {
            -((great - 80_000) / 60)
        };

        BeatmapAttributes {
            ar: ar_out,
            od: od_out,
            cs,
            hp,
            clock_rate,
            hit_windows: HitWindows { ar: preempt, od: great, hp: drain },
        }
    }
}

/// A setting after the easy and hard-rock modifiers.
fn apply_mods(v: i32, mods: u32, hr_scale_num: i64) -> (r: i64)
    requires
        0 <= v <= SETTING_CAP,
        10 <= hr_scale_num <= 20,
    ensures
        r == spec_apply_mods(v as int, mods, hr_scale_num as int),
        0 <= r <= SETTING_CAP,
{
    let eased: i64 = if mods & EZ != 0 {
        (v as i64) / 2
    } else {
        v as i64
    };

    assert(0 <= eased <= SETTING_CAP);
    assert(0 <= eased * hr_scale_num <= 20000) by (nonlinear_arith)
        requires
            0 <= eased <= 1000,
            10 <= hr_scale_num <= 20,
    ;

    if mods & HR != 0 {
        let raised = eased * hr_scale_num / 10;
        if raised > SETTING_CAP {
            SETTING_CAP
        } else {
            raised
        }
    } else {
        eased
    }
}

} // verus!
