//! A beatmap attached to a game mode.

use vstd::prelude::*;

use core::marker::PhantomData;

use crate::beatmap::BeatmapData;
use crate::map_attrs::BeatmapAttributesBuilder;
use crate::mode::{check_convert, spec_compatible, Catch, ConvertStatus, IGameMode, Mania, Osu, Taiko};

verus! {

/// A beatmap attached to the osu!standard mode.
pub type OsuBeatmap = Converted<Osu>;

/// A beatmap attached to the osu!taiko mode.
pub type TaikoBeatmap = Converted<Taiko>;

/// A beatmap attached to the osu!catch mode.
pub type CatchBeatmap = Converted<Catch>;

/// A beatmap attached to the osu!mania mode.
pub type ManiaBeatmap = Converted<Mania>;

/// A [`BeatmapData`] that is attached to a mode.
///
/// The following conversions are compatible: every mode to itself, and
/// osu!standard to every mode. All other conversions are incompatible.
pub struct Converted<M: IGameMode> {
    /// The attached map; its mode field always equals `M`'s mode.
    pub map: BeatmapData,
    /// Whether the map was taken over from another mode.
    pub is_convert: bool,
    pub mode: PhantomData<M>,
}

impl<M: IGameMode> Converted<M> {
    /// A converted map is attached to the mode its marker stands for,
    /// and its settings are in range.
    pub open spec fn wf(&self) -> bool {
        &&& self.map.mode == M::spec_mode()
        &&& self.map.wf()
    }

    /// Attach a map to the mode by promising that its mode matches the
    /// marker `M`.
    fn attach(map: BeatmapData, is_convert: bool) -> (r: Self)
        requires
            map.mode == M::spec_mode(),
        ensures
            r.map == map,
            r.is_convert == is_convert,
            r.wf() == map.wf(),
    {
        Converted { map, is_convert, mode: PhantomData }
    }

    /// Attempt to attach a [`BeatmapData`] to the mode `M`.
    ///
    /// If the conversion is incompatible the [`BeatmapData`] is returned
    /// unchanged as `Err`.
    pub fn try_from_owned(map: BeatmapData) -> (r: Result<Self, BeatmapData>)
        ensures
            spec_compatible(map.mode, M::spec_mode()) <==> r is Ok,
            r matches Ok(c) ==> {
                &&& c.map.mode == M::spec_mode()
                &&& c.map.origin == map.origin
                &&& c.map.ar == map.ar
                &&& c.map.cs == map.cs
                &&& c.map.od == map.od
                &&& c.map.hp == map.hp
                &&& c.is_convert == (map.mode != M::spec_mode())
                &&& map.wf() ==> c.wf()
            },
            r matches Err(m) ==> m == map,
    {
        let target = M::mode();

        match check_convert(map.mode, target) {
            ConvertStatus::Noop => Ok(Self::attach(map, false)),
            ConvertStatus::Done => {
                let converted = BeatmapData { mode: target, ..map };

                Ok(Self::attach(converted, true))
            }
            ConvertStatus::Incompatible => Err(map),
        }
    }

    /// Attach a [`BeatmapData`] to the mode `M`.
    ///
    /// The map must be compatible with the mode; incompatible maps are
    /// rejected by [`Converted::try_from_owned`] instead.
    pub fn unchecked_from_owned(map: BeatmapData) -> (r: Self)
        requires
            spec_compatible(map.mode, M::spec_mode()),
        ensures
            r.map.mode == M::spec_mode(),
            r.map.origin == map.origin,
            r.is_convert == (map.mode != M::spec_mode()),
            map.wf() ==> r.wf(),
    {
        match Self::try_from_owned(map) {
            Ok(converted) => converted,
            Err(_) => unreached(),
        }
    }

    /// Attempt to attach a copy of a [`BeatmapData`] to the mode `M`.
    ///
    /// If the conversion is incompatible, `None` is returned.
    pub fn try_from_ref(map: &BeatmapData) -> (r: Option<Self>)
        ensures
            spec_compatible(map.mode, M::spec_mode()) <==> r is Some,
            r matches Some(c) ==> {
                &&& c.map.mode == M::spec_mode()
                &&& c.map.origin == map.origin
                &&& c.is_convert == (map.mode != M::spec_mode())
                &&& map.wf() ==> c.wf()
            },
    {
        match Self::try_from_owned(map.duplicate()) {
            Ok(converted) => Some(converted),
            Err(_) => None,
        }
    }

    /// Attach a copy of a [`BeatmapData`] to the mode `M`.
    ///
    /// The map must be compatible with the mode; incompatible maps are
    /// rejected by [`Converted::try_from_ref`] instead.
    pub fn unchecked_from_ref(map: &BeatmapData) -> (r: Self)
        requires
            spec_compatible(map.mode, M::spec_mode()),
        ensures
            r.map.mode == M::spec_mode(),
            r.map.origin == map.origin,
            r.is_convert == (map.mode != M::spec_mode()),
            map.wf() ==> r.wf(),
    {
        match Self::try_from_ref(map) {
            Some(converted) => converted,
            None => unreached(),
        }
    }

    /// A copy of this converted map.
    pub fn as_owned(&self) -> (r: Self)
        ensures
            r.map == self.map,
            r.is_convert == self.is_convert,
    {
        Converted { map: self.map.duplicate(), is_convert: self.is_convert, mode: PhantomData }
    }

    /// Attempt to convert this map from mode `M` to mode `N`.
    ///
    /// If the conversion is incompatible, the map is returned unchanged
    /// as `Err`.
    pub fn try_convert<N: IGameMode>(self) -> (r: Result<Converted<N>, Self>)
        ensures
            spec_compatible(self.map.mode, N::spec_mode()) <==> r is Ok,
            r matches Ok(c) ==> {
                &&& c.map.mode == N::spec_mode()
                &&& c.map.origin == self.map.origin
                &&& c.is_convert == (self.map.mode != N::spec_mode())
            },
            r matches Err(m) ==> m == self,
    {
        match Converted::<N>::try_from_owned(self.map) {
            Ok(converted) => Ok(converted),
            Err(map) => Err(Converted { map, is_convert: self.is_convert, mode: PhantomData }),
        }
    }

    /// A builder for beatmap attributes under modifiers, seeded with
    /// this map's settings.
    pub fn attributes(&self) -> (r: BeatmapAttributesBuilder)
        ensures
            r == BeatmapAttributesBuilder::spec_from_map(self.map),
    {
        BeatmapAttributesBuilder::from_map(&self.map)
    }
}

} // verus!
