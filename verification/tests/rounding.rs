//! The rounding engine: fast path against the exact fallback, tie
//! behaviour, idempotence, monotonicity of the value table.

use search::rround::{fallback_round, half_away_round, init_thresholds, step_of};

#[test]
fn fallback_ties_go_to_even() {
    // raw steps of 1/10_000: 250 is 0.025, halfway between 0.02 and 0.03
    assert_eq!(fallback_round(250, 2), 200);
    assert_eq!(fallback_round(350, 2), 400);
    assert_eq!(fallback_round(-250, 2), -200);
    assert_eq!(fallback_round(-350, 2), -400);
    assert_eq!(fallback_round(50, 2), 0);
    assert_eq!(fallback_round(150, 2), 200);
    assert_eq!(fallback_round(-50, 2), 0);
}

#[test]
fn fallback_all_digit_counts() {
    // 1.2345 rounded to 0..=4 digits
    assert_eq!(fallback_round(12_345, 0), 10_000);
    assert_eq!(fallback_round(12_345, 1), 12_000);
    assert_eq!(fallback_round(12_345, 2), 12_300);
    assert_eq!(fallback_round(12_345, 3), 12_340);
    assert_eq!(fallback_round(12_345, 4), 12_345);
    assert_eq!(fallback_round(12_345, 9), 12_345);
    // 0.5 to whole units, ties to even
    assert_eq!(fallback_round(5_000, 0), 0);
    assert_eq!(fallback_round(15_000, 0), 20_000);
    assert_eq!(fallback_round(25_000, 0), 20_000);
}

#[test]
fn half_away_differs_from_half_even_on_ties() {
    assert_eq!(half_away_round(50, 100), 100);
    assert_eq!(half_away_round(-50, 100), -100);
    assert_eq!(half_away_round(250, 100), 300);
    assert_eq!(fallback_round(250, 2), 200);
    assert_eq!(half_away_round(49, 100), 0);
    assert_eq!(half_away_round(-49, 100), 0);
}

#[test]
fn steps_for_digit_counts() {
    assert_eq!(step_of(0), 10_000);
    assert_eq!(step_of(1), 1_000);
    assert_eq!(step_of(2), 100);
    assert_eq!(step_of(3), 10);
    assert_eq!(step_of(4), 1);
    assert_eq!(step_of(9), 1);
}

#[test]
fn fast_path_matches_fallback_at_and_around_midpoints() {
    let table = init_thresholds();
    // every centi-unit midpoint near zero, plus the raw neighbours on
    // both sides of each midpoint
    for i in -2_000i64..=2_000 {
        let mid = i * 100 + 50;
        for v in [mid - 2, mid - 1, mid, mid + 1, mid + 2] {
            assert_eq!(table.round(v, 2), fallback_round(v, 2), "at {v}");
        }
    }
    // out-of-table values fall back to the exact path
    let far = 100_000_000_000i64 + 37;
    assert_eq!(table.round(far, 2), fallback_round(far, 2));
    assert_eq!(table.round(-far, 2), fallback_round(-far, 2));
    // other digit counts share the fallback
    assert_eq!(table.round(12_345, 0), fallback_round(12_345, 0));
    assert_eq!(table.round(12_345, 3), fallback_round(12_345, 3));
}

#[test]
fn rounding_is_idempotent() {
    for i in -500i64..=500 {
        let v = i * 37 + 11;
        let once = fallback_round(v, 2);
        assert_eq!(fallback_round(once, 2), once);
    }
}

#[test]
fn value_table_strictly_increasing() {
    let table = init_thresholds();
    for i in 0..table.muls.len() - 1 {
        assert!(table.muls[i] < table.muls[i + 1]);
    }
}
