//! Hitresult synthesis: completing a partial description of a play
//! into a full score state.

use rosu_pp::{HitResultPriority, OsuDifficultyAttributes, OsuPerformance, OsuScoreState};

/// The attributes of a map with 601 objects, as a difficulty
/// calculation would report them.
fn attrs() -> OsuDifficultyAttributes {
    OsuDifficultyAttributes {
        n_circles: 307,
        n_sliders: 293,
        n_spinners: 1,
        max_combo: 909,
    }
}

const N_OBJECTS: u32 = 601;

/// The accuracy of a state, for the brute-force comparison.
fn accuracy(n300: u32, n100: u32, n50: u32, misses: u32) -> f64 {
    if n300 + n100 + n50 + misses == 0 {
        return 0.0;
    }

    let numerator = 6 * n300 + 2 * n100 + n50;
    let denominator = 6 * (n300 + n100 + n50 + misses);

    f64::from(numerator) / f64::from(denominator)
}

/// Checks every hitresult combination and returns the state that
/// matches `acc` the best, with no count specified. Slow but simple.
fn brute_force_best(acc: f64, misses: u32, best_case: bool) -> OsuScoreState {
    let misses = misses.min(N_OBJECTS);
    let n_remaining = N_OBJECTS - misses;

    let mut best_state = OsuScoreState {
        max_combo: 0,
        n300: 0,
        n100: 0,
        n50: 0,
        misses,
    };

    let mut best_dist = f64::INFINITY;

    for new300 in 0..=n_remaining {
        for new100 in 0..=(n_remaining - new300) {
            let new50 = n_remaining - new300 - new100;
            let curr_dist = (acc - accuracy(new300, new100, new50, misses)).abs();

            if curr_dist < best_dist {
                best_dist = curr_dist;
                best_state.n300 = new300;
                best_state.n100 = new100;
                best_state.n50 = new50;
            }
        }
    }

    if best_case {
        let n = best_state.n300.min(best_state.n50 / 4);
        best_state.n300 -= n;
        best_state.n100 += 5 * n;
        best_state.n50 -= 4 * n;
    } else {
        let n = best_state.n100 / 5;
        best_state.n300 += n;
        best_state.n100 -= 5 * n;
        best_state.n50 += 4 * n;
    }

    best_state
}

#[test]
fn hitresults_n300_n100_misses_best() {
    let state = OsuPerformance::new(attrs())
        .combo(500)
        .n300(300)
        .n100(20)
        .misses(2)
        .hitresult_priority(HitResultPriority::BestCase)
        .generate_state();

    let expected = OsuScoreState {
        max_combo: 500,
        n300: 300,
        n100: 20,
        n50: 279,
        misses: 2,
    };

    assert_eq!(state, expected);
}

#[test]
fn hitresults_n300_n50_misses_best() {
    let state = OsuPerformance::new(attrs())
        .combo(500)
        .n300(300)
        .n50(10)
        .misses(2)
        .hitresult_priority(HitResultPriority::BestCase)
        .generate_state();

    let expected = OsuScoreState {
        max_combo: 500,
        n300: 300,
        n100: 289,
        n50: 10,
        misses: 2,
    };

    assert_eq!(state, expected);
}

#[test]
fn hitresults_n50_misses_worst() {
    let state = OsuPerformance::new(attrs())
        .combo(500)
        .n50(10)
        .misses(2)
        .hitresult_priority(HitResultPriority::WorstCase)
        .generate_state();

    let expected = OsuScoreState {
        max_combo: 500,
        n300: 0,
        n100: 589,
        n50: 10,
        misses: 2,
    };

    assert_eq!(state, expected);
}

#[test]
fn hitresults_n300_n100_n50_misses_worst() {
    let state = OsuPerformance::new(attrs())
        .combo(500)
        .n300(300)
        .n100(50)
        .n50(10)
        .misses(2)
        .hitresult_priority(HitResultPriority::WorstCase)
        .generate_state();

    let expected = OsuScoreState {
        max_combo: 500,
        n300: 300,
        n100: 50,
        n50: 249,
        misses: 2,
    };

    assert_eq!(state, expected);
}

#[test]
fn empty_play_misses_everything() {
    let state = OsuPerformance::new(attrs())
        .accuracy(0, 1)
        .misses(N_OBJECTS)
        .generate_state();

    let expected = OsuScoreState {
        max_combo: 909 - N_OBJECTS,
        n300: 0,
        n100: 0,
        n50: 0,
        misses: N_OBJECTS,
    };

    assert_eq!(state, expected);
}

#[test]
fn perfect_play_all_great() {
    let state = OsuPerformance::new(attrs())
        .accuracy(1, 1)
        .misses(0)
        .hitresult_priority(HitResultPriority::BestCase)
        .generate_state();

    assert_eq!(state.n300, N_OBJECTS);
    assert_eq!(state.n100, 0);
    assert_eq!(state.n50, 0);
    assert_eq!(state.misses, 0);
    assert_eq!(state.max_combo, 909);
}

#[test]
fn accuracy_target_matches_brute_force_best() {
    let state = OsuPerformance::new(attrs())
        .accuracy(95, 100)
        .misses(0)
        .hitresult_priority(HitResultPriority::BestCase)
        .generate_state();

    let mut expected = brute_force_best(0.95, 0, true);
    expected.max_combo = 909;

    assert_eq!(state, expected);
}

#[test]
fn accuracy_target_matches_brute_force_worst() {
    let state = OsuPerformance::new(attrs())
        .accuracy(95, 100)
        .misses(0)
        .hitresult_priority(HitResultPriority::WorstCase)
        .generate_state();

    let mut expected = brute_force_best(0.95, 0, false);
    expected.max_combo = 909;

    assert_eq!(state, expected);
}

#[test]
fn accuracy_target_with_misses_matches_brute_force() {
    let state = OsuPerformance::new(attrs())
        .accuracy(80, 100)
        .misses(30)
        .hitresult_priority(HitResultPriority::BestCase)
        .generate_state();

    let mut expected = brute_force_best(0.8, 30, true);
    expected.max_combo = 909 - 30;

    assert_eq!(state, expected);
}

#[test]
fn best_and_worst_case_accuracies_agree_on_open_counts() {
    let best = OsuPerformance::new(attrs())
        .accuracy(77, 100)
        .hitresult_priority(HitResultPriority::BestCase)
        .generate_state();
    let worst = OsuPerformance::new(attrs())
        .accuracy(77, 100)
        .hitresult_priority(HitResultPriority::WorstCase)
        .generate_state();

    let weight_best = 6 * best.n300 + 2 * best.n100 + best.n50;
    let weight_worst = 6 * worst.n300 + 2 * worst.n100 + worst.n50;

    assert_eq!(weight_best, weight_worst);
    assert_eq!(best.total_hits(), worst.total_hits());
    assert!(accuracy(best.n300, best.n100, best.n50, 0) >= accuracy(worst.n300, worst.n100, worst.n50, 0));
}

#[test]
fn accounting_fills_up_to_the_object_count() {
    let state = OsuPerformance::new(attrs())
        .n300(100)
        .n100(50)
        .misses(7)
        .generate_state();

    assert_eq!(state.n300 + state.n100 + state.n50 + state.misses, N_OBJECTS);
}

#[test]
fn combo_leaves_room_for_misses() {
    let state = OsuPerformance::new(attrs()).misses(20).generate_state();

    assert!(state.max_combo + state.misses <= 909);
    assert_eq!(state.max_combo, 909 - 20);
}

#[test]
fn passed_objects_cap_the_play() {
    let state = OsuPerformance::new(attrs())
        .passed_objects(50)
        .misses(60)
        .generate_state();

    assert_eq!(state.misses, 50);
    assert_eq!(state.n300, 0);

    let state = OsuPerformance::new(attrs())
        .passed_objects(50)
        .generate_state();

    assert_eq!(state.n300, 50);
}

#[test]
fn overshooting_counts_are_clamped() {
    let state = OsuPerformance::new(attrs())
        .n300(2 * N_OBJECTS)
        .misses(2 * N_OBJECTS)
        .generate_state();

    assert_eq!(state.misses, N_OBJECTS);
    assert_eq!(state.n300, 0);
    assert_eq!(state.max_combo, 909 - N_OBJECTS);
}

#[test]
fn state_round_trips_through_the_builder() {
    let given = OsuScoreState {
        max_combo: 400,
        n300: 500,
        n100: 80,
        n50: 0,
        misses: 21,
    };

    let state = OsuPerformance::new(attrs()).state(given).generate_state();

    assert_eq!(state, given);
}

#[test]
fn accuracy_fraction_weighs_hits() {
    let state = OsuScoreState {
        max_combo: 10,
        n300: 3,
        n100: 2,
        n50: 1,
        misses: 4,
    };

    assert_eq!(state.total_hits(), 10);
    assert_eq!(state.accuracy_fraction(), (6 * 3 + 2 * 2 + 1, 60));

    let empty = OsuScoreState::new();
    assert_eq!(empty.accuracy_fraction(), (0, 1));
}

#[test]
fn accuracy_target_with_fixed_n300_picks_the_best_split() {
    let state = OsuPerformance::new(attrs())
        .accuracy(92, 100)
        .n300(500)
        .misses(1)
        .generate_state();

    let mut best = (0, 0);
    let mut best_dist = f64::INFINITY;
    let rem = N_OBJECTS - 1 - 500;

    for n100 in 0..=rem {
        let dist = (0.92 - accuracy(500, n100, rem - n100, 1)).abs();

        if dist < best_dist {
            best_dist = dist;
            best = (n100, rem - n100);
        }
    }

    assert_eq!(state.n300, 500);
    assert_eq!((state.n100, state.n50), best);
    assert_eq!(state.misses, 1);
}

#[test]
fn accuracy_target_with_fixed_n100_picks_the_best_split() {
    let state = OsuPerformance::new(attrs())
        .accuracy(88, 100)
        .n100(40)
        .generate_state();

    let mut best = (0, 0);
    let mut best_dist = f64::INFINITY;
    let rem = N_OBJECTS - 40;

    for n300 in 0..=rem {
        let dist = (0.88 - accuracy(n300, 40, rem - n300, 0)).abs();

        if dist < best_dist {
            best_dist = dist;
            best = (n300, rem - n300);
        }
    }

    assert_eq!((state.n300, state.n50), best);
    assert_eq!(state.n100, 40);
}

#[test]
fn accuracy_target_with_fixed_n50_picks_the_best_split() {
    let state = OsuPerformance::new(attrs())
        .accuracy(97, 100)
        .n50(12)
        .generate_state();

    let mut best = (0, 0);
    let mut best_dist = f64::INFINITY;
    let rem = N_OBJECTS - 12;

    for n300 in 0..=rem {
        let dist = (0.97 - accuracy(n300, rem - n300, 12, 0)).abs();

        if dist < best_dist {
            best_dist = dist;
            best = (n300, rem - n300);
        }
    }

    assert_eq!((state.n300, state.n100), best);
    assert_eq!(state.n50, 12);
}

#[test]
fn two_fixed_counts_leave_the_third_to_fill() {
    let state = OsuPerformance::new(attrs())
        .accuracy(50, 100)
        .n300(100)
        .n100(200)
        .misses(1)
        .generate_state();

    assert_eq!(state.n50, N_OBJECTS - 100 - 200 - 1);

    let state = OsuPerformance::new(attrs())
        .accuracy(50, 100)
        .n300(100)
        .n50(200)
        .generate_state();

    assert_eq!(state.n100, N_OBJECTS - 100 - 200);

    let state = OsuPerformance::new(attrs())
        .accuracy(50, 100)
        .n100(100)
        .n50(200)
        .generate_state();

    assert_eq!(state.n300, N_OBJECTS - 100 - 200);
}

#[test]
fn accuracy_above_one_is_clamped() {
    let state = OsuPerformance::new(attrs())
        .accuracy(250, 100)
        .misses(0)
        .generate_state();

    assert_eq!(state.n300, N_OBJECTS);
    assert_eq!(state.n100, 0);
    assert_eq!(state.n50, 0);
}
