//! The beatmap input model.
//!
//! Parsing `.osu` files is the business of the `rosu_map` crate; the
//! parsed file rides along inside [`BeatmapData`] so that later pipeline
//! stages can read the raw hit objects. The fields the verified logic
//! works with — the mode and the four difficulty settings — are stored
//! beside it as plain values. Difficulty settings are kept in
//! centi-units (a setting of 4.2 is stored as 420) so that the
//! attribute formulas stay exact; callers clamp and scale once at the
//! boundary.

use vstd::prelude::*;

use crate::mode::GameMode;

verus! {

/// Smallest accepted difficulty setting, in centi-units (0.0).
pub const SETTING_MIN: i32 = 0;
/// Largest accepted difficulty setting, in centi-units (10.0).
pub const SETTING_MAX: i32 = 1000;

/// Declares `rosu_map::Beatmap`, the parsed `.osu` file, so that it
/// can ride along inside the library's types; its contents stay
/// opaque here.
#[verifier::external_type_specification]
#[verifier::external_body]
pub struct ExRosuBeatmap(rosu_map::Beatmap);

/// Relies on the `Clone` impl that `rosu_map::Beatmap` derives: the
/// clone equals the original, field for field.
#[verifier::external_body]
fn clone_origin(map: &rosu_map::Beatmap) -> (r: rosu_map::Beatmap)
    ensures
        r == *map,
{
    map.clone()
}

/// Clamp a difficulty setting into the accepted centi-unit range.
pub open spec fn spec_clamp_setting(v: i32) -> i32 {
    if v < SETTING_MIN {
        SETTING_MIN
    } else if v > SETTING_MAX {
        SETTING_MAX
    } else {
        v
    }
}

/// A beatmap: the parsed `.osu` file together with the plain values the
/// evaluator reads from it.
pub struct BeatmapData {
    /// The parsed `.osu` file.
    pub origin: rosu_map::Beatmap,
    /// The mode the map currently counts as.
    pub mode: GameMode,
    /// Approach rate, in centi-units.
    pub ar: i32,
    /// Circle size, in centi-units.
    pub cs: i32,
    /// Overall difficulty, in centi-units.
    pub od: i32,
    /// Health drain rate, in centi-units.
    pub hp: i32,
}

impl BeatmapData {
    /// The settings a well-formed map carries are within the accepted range.
    pub open spec fn wf(&self) -> bool {
        &&& SETTING_MIN <= self.ar <= SETTING_MAX
        &&& SETTING_MIN <= self.cs <= SETTING_MAX
        &&& SETTING_MIN <= self.od <= SETTING_MAX
        &&& SETTING_MIN <= self.hp <= SETTING_MAX
    }

    /// Assemble a beatmap from a parsed file and its plain values,
    /// clamping out-of-range settings.
    pub fn new(
        origin: rosu_map::Beatmap,
        mode: GameMode,
        ar: i32,
        cs: i32,
        od: i32,
        hp: i32,
    ) -> (r: Self)
        ensures
            r.origin == origin,
            r.mode == mode,
            r.ar == spec_clamp_setting(ar),
            r.cs == spec_clamp_setting(cs),
            r.od == spec_clamp_setting(od),
            r.hp == spec_clamp_setting(hp),
            r.wf(),
    {
        BeatmapData {
            origin,
            mode,
            ar: clamp_setting(ar),
            cs: clamp_setting(cs),
            od: clamp_setting(od),
            hp: clamp_setting(hp),
        }
    }

    /// A copy of this beatmap.
    pub fn duplicate(&self) -> (r: Self)
        ensures
            r == *self,
    {
        BeatmapData {
            origin: clone_origin(&self.origin),
            mode: self.mode,
            ar: self.ar,
            cs: self.cs,
            od: self.od,
            hp: self.hp,
        }
    }
}

/// Clamp a difficulty setting into the accepted centi-unit range.
pub fn clamp_setting(v: i32) -> (r: i32)
    ensures
        r == spec_clamp_setting(v),
{
    if v < SETTING_MIN {
        SETTING_MIN
    } else if v > SETTING_MAX {
        SETTING_MAX
    } else {
        v
    }
}

} // verus!
