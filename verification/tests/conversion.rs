//! Attaching beatmaps to modes and converting between modes.

use rosu_pp::mode::{check_convert, compatible, ConvertStatus};
use rosu_pp::{
    BeatmapData, Catch, Converted, GameMode, Mania, Osu, OsuDifficultyAttributes, OsuPerformance,
    Taiko,
};

fn osu_map() -> BeatmapData {
    BeatmapData::new(rosu_map::Beatmap::default(), GameMode::Osu, 900, 400, 800, 500)
}

fn taiko_map() -> BeatmapData {
    BeatmapData::new(rosu_map::Beatmap::default(), GameMode::Taiko, 900, 400, 800, 500)
}

#[test]
fn osu_map_attaches_to_every_mode() {
    assert!(Converted::<Osu>::try_from_ref(&osu_map()).is_some());
    assert!(Converted::<Taiko>::try_from_ref(&osu_map()).is_some());
    assert!(Converted::<Catch>::try_from_ref(&osu_map()).is_some());
    assert!(Converted::<Mania>::try_from_ref(&osu_map()).is_some());
}

#[test]
fn other_modes_only_attach_to_themselves() {
    assert!(Converted::<Osu>::try_from_ref(&taiko_map()).is_none());
    assert!(Converted::<Taiko>::try_from_ref(&taiko_map()).is_some());
    assert!(Converted::<Catch>::try_from_ref(&taiko_map()).is_none());
    assert!(Converted::<Mania>::try_from_ref(&taiko_map()).is_none());
}

#[test]
fn conversion_marks_the_map_as_convert() {
    let same = Converted::<Osu>::try_from_owned(osu_map()).ok().unwrap();
    assert!(!same.is_convert);
    assert_eq!(same.map.mode, GameMode::Osu);

    let converted = Converted::<Catch>::try_from_owned(osu_map()).ok().unwrap();
    assert!(converted.is_convert);
    assert_eq!(converted.map.mode, GameMode::Catch);
}

#[test]
fn incompatible_conversion_returns_the_map() {
    let map = taiko_map();
    let rejected = match Converted::<Mania>::try_from_owned(map) {
        Ok(_) => panic!("taiko does not convert to mania"),
        Err(rejected) => rejected,
    };

    assert_eq!(rejected.mode, GameMode::Taiko);
    assert_eq!(rejected.ar, 900);
}

#[test]
fn try_convert_changes_the_mode() {
    let osu = Converted::<Osu>::unchecked_from_owned(osu_map());
    let taiko = match osu.try_convert::<Taiko>() {
        Ok(taiko) => taiko,
        Err(_) => panic!("osu converts to taiko"),
    };

    assert_eq!(taiko.map.mode, GameMode::Taiko);
    assert!(taiko.is_convert);

    let catch = Converted::<Catch>::unchecked_from_owned(osu_map());
    assert!(catch.try_convert::<Mania>().is_err());
}

#[test]
fn as_owned_copies_the_map() {
    let converted = Converted::<Osu>::unchecked_from_ref(&osu_map());
    let copy = converted.as_owned();

    assert_eq!(copy.map.mode, converted.map.mode);
    assert_eq!(copy.map.ar, converted.map.ar);
    assert_eq!(copy.map.origin, converted.map.origin);
    assert_eq!(copy.is_convert, converted.is_convert);
}

#[test]
fn duplicate_copies_every_field() {
    let mut origin = rosu_map::Beatmap::default();
    origin.creator = String::from("someone");

    let map = BeatmapData::new(origin.clone(), GameMode::Osu, 900, 400, 800, 500);
    let copy = map.duplicate();

    assert_eq!(copy.origin, origin);
    assert_eq!(copy.mode, map.mode);
    assert_eq!(copy.ar, 900);
    assert_eq!(copy.cs, 400);
    assert_eq!(copy.od, 800);
    assert_eq!(copy.hp, 500);
}

#[test]
fn settings_are_clamped_at_the_boundary() {
    let map = BeatmapData::new(rosu_map::Beatmap::default(), GameMode::Osu, 1200, -5, 400, 500);

    assert_eq!(map.ar, 1000);
    assert_eq!(map.cs, 0);
    assert_eq!(map.od, 400);
}

#[test]
fn attributes_builder_takes_the_map_settings() {
    let converted = Converted::<Osu>::unchecked_from_ref(&osu_map());
    let builder = converted.attributes();

    assert_eq!(builder.ar, 900);
    assert_eq!(builder.cs, 400);
    assert_eq!(builder.od, 800);
    assert_eq!(builder.hp, 500);
    assert_eq!(builder.mode, GameMode::Osu);
    assert_eq!(builder.mods, 0);
}

#[test]
fn convert_status_follows_the_mode_pair() {
    assert_eq!(check_convert(GameMode::Osu, GameMode::Osu), ConvertStatus::Noop);
    assert_eq!(check_convert(GameMode::Taiko, GameMode::Taiko), ConvertStatus::Noop);
    assert_eq!(check_convert(GameMode::Osu, GameMode::Mania), ConvertStatus::Done);
    assert_eq!(check_convert(GameMode::Catch, GameMode::Taiko), ConvertStatus::Incompatible);
    assert!(compatible(GameMode::Osu, GameMode::Catch));
    assert!(!compatible(GameMode::Mania, GameMode::Osu));
}

#[test]
fn create() {
    let _ = OsuPerformance::new(OsuDifficultyAttributes::default());
    let _ = OsuDifficultyAttributes::default().performance();

    let converted = Converted::<Osu>::unchecked_from_ref(&osu_map());
    let attrs = OsuDifficultyAttributes {
        n_circles: 1,
        n_sliders: 0,
        n_spinners: 0,
        max_combo: 1,
    };
    let _ = OsuPerformance::new(attrs).state(Default::default());

    assert!(Converted::<Osu>::try_from_ref(&converted.map).is_some());
    assert!(Converted::<Taiko>::try_from_owned(taiko_map()).is_ok());
    assert!(Converted::<Osu>::try_from_owned(taiko_map()).is_err());
}
