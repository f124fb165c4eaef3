//! Game modes and the rules for converting a beatmap between them.
//!
//! A beatmap carries the mode it was authored for. It can be used as is
//! in that mode, and a map authored for the osu!standard mode can also be
//! converted to any of the other modes. All other conversions are
//! incompatible.

use vstd::prelude::*;

verus! {

/// The playable game modes.
#[derive(Clone, Copy, Debug, PartialEq, Eq, Structural)]
pub enum GameMode {
    /// osu!standard
    Osu,
    /// osu!taiko
    Taiko,
    /// osu!catch
    Catch,
    /// osu!mania
    Mania,
}

/// The outcome of attaching a beatmap to a mode.
#[derive(Clone, Copy, Debug, PartialEq, Eq, Structural)]
pub enum ConvertStatus {
    /// The map already was of the requested mode.
    Noop,
    /// The map was converted to the requested mode.
    Done,
    /// The map cannot be converted to the requested mode.
    Incompatible,
}

/// Whether a map of mode `from` may be used in mode `to`: either the
/// modes agree, or the map is an osu!standard map, which converts to
/// every mode.
pub open spec fn spec_compatible(from: GameMode, to: GameMode) -> bool {
    from == to || from == GameMode::Osu
}

/// Whether a map of mode `from` may be used in mode `to`.
pub fn compatible(from: GameMode, to: GameMode) -> (r: bool)
    ensures
        r == spec_compatible(from, to),
{
    from == to || from == GameMode::Osu
}

/// What attaching a map of mode `from` to mode `to` amounts to:
/// nothing when the modes agree, a conversion when an osu!standard
/// map goes to another mode, and a rejection otherwise.
pub fn check_convert(from: GameMode, to: GameMode) -> (r: ConvertStatus)
    ensures
        r is Noop <==> from == to,
        r is Done <==> (from != to && from == GameMode::Osu),
        r is Incompatible <==> !spec_compatible(from, to),
{
    if from == to {
        ConvertStatus::Noop
    } else if from == GameMode::Osu {
        ConvertStatus::Done
    } else {
        ConvertStatus::Incompatible
    }
}

/// A marker type standing for one game mode.
///
/// The difficulty and performance calculators are generic over the mode
/// they work in; the four marker types implementing this trait select it
/// at the type level.
pub trait IGameMode: Sized {
    /// The mode the marker stands for.
    spec fn spec_mode() -> GameMode;

    /// The mode the marker stands for.
    fn mode() -> (m: GameMode)
        ensures
            m == Self::spec_mode(),
    ;
}

/// Marker type of the osu!standard mode.
#[derive(Clone, Copy, Debug)]
pub struct Osu;

/// Marker type of the osu!taiko mode.
#[derive(Clone, Copy, Debug)]
pub struct Taiko;

/// Marker type of the osu!catch mode.
#[derive(Clone, Copy, Debug)]
pub struct Catch;

/// Marker type of the osu!mania mode.
#[derive(Clone, Copy, Debug)]
pub struct Mania;

impl IGameMode for Osu {
    open spec fn spec_mode() -> GameMode {
        GameMode::Osu
    }

    fn mode() -> GameMode {
        GameMode::Osu
    }
}

impl IGameMode for Taiko {
    open spec fn spec_mode() -> GameMode {
        GameMode::Taiko
    }

    fn mode() -> GameMode {
        GameMode::Taiko
    }
}

impl IGameMode for Catch {
    open spec fn spec_mode() -> GameMode {
        GameMode::Catch
    }

    fn mode() -> GameMode {
        GameMode::Catch
    }
}

impl IGameMode for Mania {
    open spec fn spec_mode() -> GameMode {
        GameMode::Mania
    }

    fn mode() -> GameMode {
        GameMode::Mania
    }
}

} // verus!
