//! Modifiers, clock rates, resolved beatmap attributes and the
//! gradual cursor.

use rosu_pp::{
    BeatmapData, Converted, GameMode, GradualCursor, ModeDifficulty, Mods, Osu,
};

fn osu_map() -> BeatmapData {
    BeatmapData::new(rosu_map::Beatmap::default(), GameMode::Osu, 900, 400, 800, 500)
}

#[test]
fn mod_flags_are_read_from_the_bits() {
    let mods = Mods::new(8 | 16 | 1024);

    assert!(mods.hd());
    assert!(mods.hr());
    assert!(mods.fl());
    assert!(!mods.ez());
    assert!(!mods.dt());
    assert!(!mods.ht());
}

#[test]
fn clock_rate_follows_the_mods() {
    assert_eq!(Mods::new(0).clock_rate_permille(), 1000);
    assert_eq!(Mods::new(64).clock_rate_permille(), 1500);
    assert_eq!(Mods::new(256).clock_rate_permille(), 750);
    assert_eq!(Mods::new(64 | 256).clock_rate_permille(), 1500);
    assert_eq!(Mods::new(8 | 16).clock_rate_permille(), 1000);
}

#[test]
fn difficulty_clock_rate_override_wins() {
    assert_eq!(ModeDifficulty::new().mods(64).get_clock_rate(), 1500);
    assert_eq!(ModeDifficulty::new().mods(64).clock_rate(2000).get_clock_rate(), 2000);
    assert_eq!(ModeDifficulty::new().clock_rate(5).get_clock_rate(), 10);
    assert_eq!(ModeDifficulty::new().clock_rate(200_000).get_clock_rate(), 100_000);
    assert_eq!(ModeDifficulty::new().get_passed_objects(), u32::MAX);
    assert_eq!(ModeDifficulty::new().passed_objects(7).get_passed_objects(), 7);
}

#[test]
fn attributes_without_mods_keep_the_settings() {
    let attrs = Converted::<Osu>::unchecked_from_ref(&osu_map()).attributes().build();

    assert_eq!(attrs.ar, 900);
    assert_eq!(attrs.od, 800);
    assert_eq!(attrs.cs, 400);
    assert_eq!(attrs.hp, 500);
    assert_eq!(attrs.clock_rate, 1000);
    assert_eq!(attrs.hit_windows.ar, 600_000);
    assert_eq!(attrs.hit_windows.od, 32_000);
    assert_eq!(attrs.hit_windows.hp, 50_000);
}

#[test]
fn double_time_stretches_the_hit_windows() {
    let attrs = Converted::<Osu>::unchecked_from_ref(&osu_map())
        .attributes()
        .difficulty(&ModeDifficulty::new().mods(64))
        .build();

    assert_eq!(attrs.clock_rate, 1500);
    assert_eq!(attrs.hit_windows.ar, 400_000);
    assert_eq!(attrs.hit_windows.od, 21_333);
    assert_eq!(attrs.ar, 1033);
    assert_eq!(attrs.od, 977);
}

#[test]
fn hard_rock_raises_and_caps_the_settings() {
    let attrs = Converted::<Osu>::unchecked_from_ref(&osu_map())
        .attributes()
        .mods(16)
        .build();

    assert_eq!(attrs.ar, 1000);
    assert_eq!(attrs.cs, 520);
    assert_eq!(attrs.od, 1000);
    assert_eq!(attrs.hp, 700);
}

#[test]
fn easy_halves_the_settings() {
    let attrs = Converted::<Osu>::unchecked_from_ref(&osu_map())
        .attributes()
        .mods(2)
        .build();

    assert_eq!(attrs.ar, 450);
    assert_eq!(attrs.cs, 200);
    assert_eq!(attrs.od, 400);
    assert_eq!(attrs.hp, 250);
}

#[test]
fn double_time_equals_an_explicit_clock_rate() {
    let with_mods = Converted::<Osu>::unchecked_from_ref(&osu_map())
        .attributes()
        .difficulty(&ModeDifficulty::new().mods(64))
        .build();
    let with_rate = Converted::<Osu>::unchecked_from_ref(&osu_map())
        .attributes()
        .clock_rate(1500)
        .build();

    assert_eq!(with_mods.hit_windows, with_rate.hit_windows);
    assert_eq!(with_mods.ar, with_rate.ar);
    assert_eq!(with_mods.od, with_rate.od);
    assert_eq!(
        ModeDifficulty::new().mods(64).get_clock_rate(),
        ModeDifficulty::new().clock_rate(1500).get_clock_rate(),
    );
}

#[test]
fn gradual_next_and_nth() {
    let mut gradual = GradualCursor::new(10);
    let mut gradual_2nd = GradualCursor::new(10);

    for i in 1..=10 {
        let prefix = gradual.next().unwrap();
        assert_eq!(prefix, i);

        if i % 2 == 0 {
            assert_eq!(gradual_2nd.nth(1).unwrap(), prefix);
        }
    }

    assert!(gradual.next().is_none());
    assert!(gradual_2nd.last().is_none());
}

#[test]
fn gradual_prefix_matches_a_direct_calculation() {
    for k in 0..10 {
        let mut fresh = GradualCursor::new(10);
        let prefix = fresh.nth(k).unwrap();

        assert_eq!(prefix, k + 1);
    }

    let mut fresh = GradualCursor::new(10);
    assert_eq!(fresh.nth(99), Some(10));

    let mut fresh = GradualCursor::new(10);
    assert_eq!(fresh.last(), Some(10));
    assert!(fresh.last().is_none());
}
