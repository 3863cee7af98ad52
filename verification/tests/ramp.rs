use rustcade::fixed::LIMIT;
use rustcade::ramp::{checkpoint, Ramp, MAX_RAMP_DELTA, NUM_RAMPS};

fn within(a: i64, b: i64) -> bool {
    (a - b).abs() <= MAX_RAMP_DELTA
}

fn respects_slew(r: &Ramp) -> bool {
    (0..NUM_RAMPS - 1).all(|i| within(r.points[i], r.points[i + 1]))
}

#[test]
fn checkpoint_is_the_turn_up_to_the_last() {
    assert_eq!(checkpoint(0), 0);
    assert_eq!(checkpoint(4), 4);
    assert_eq!(checkpoint(8), 8);
    assert_eq!(checkpoint(9), 9);
    assert_eq!(checkpoint(10), 9);
    assert_eq!(checkpoint(u32::MAX), 9);
}

#[test]
fn flat_ramp_holds_one_value() {
    let r = Ramp::flat(130_900);
    assert_eq!(r.points, [130_900; 10]);
    assert_eq!(Ramp::flat(i64::MAX).points, [LIMIT; 10]);
    assert_eq!(Ramp::flat(i64::MIN).points, [-LIMIT; 10]);
}

#[test]
fn power_for_turn_is_not_interpolated() {
    let r = Ramp { points: [0, 100, 200, 300, 400, 500, 600, 700, 800, 900] };
    assert_eq!(r.power_for_turn(0), 0);
    assert_eq!(r.power_for_turn(3), 300);
    assert_eq!(r.power_for_turn(9), 900);
    assert_eq!(r.power_for_turn(12), 900);
}

#[test]
fn clamp_value_keeps_a_feasible_value() {
    let r = Ramp::flat(0);
    assert_eq!(r.clamp_value(4, 300_000), 300_000);
    assert_eq!(r.clamp_value(4, -500_000), -500_000);
    assert_eq!(r.clamp_value(4, 500_000), 500_000);
}

#[test]
fn clamp_value_clamps_to_both_neighbours() {
    let r = Ramp { points: [0, 400_000, 0, 0, 0, 0, 0, 0, 0, 0] };
    // Checkpoint 2 lies between 400_000 and 0: the window is [-100_000, 500_000].
    assert_eq!(r.clamp_value(2, 900_000), 500_000);
    assert_eq!(r.clamp_value(2, -900_000), -100_000);
    assert_eq!(r.clamp_value(2, 200_000), 200_000);
}

#[test]
fn clamp_value_at_the_ends_has_one_neighbour() {
    let r = Ramp { points: [0, 400_000, 0, 0, 0, 0, 0, 0, 0, 300_000] };
    assert_eq!(r.clamp_value(0, 2_000_000), 900_000);
    assert_eq!(r.clamp_value(0, -2_000_000), -100_000);
    assert_eq!(r.clamp_value(9, 2_000_000), 500_000);
    assert_eq!(r.clamp_value(9, -2_000_000), -500_000);
}

#[test]
fn clamp_value_of_a_missing_checkpoint_is_the_value() {
    let r = Ramp::flat(0);
    assert_eq!(r.clamp_value(10, 7_000_000), 7_000_000);
    assert_eq!(r.clamp_value(usize::MAX, -7), -7);
}

#[test]
fn edits_are_clamped_never_refused() {
    let mut r = Ramp::flat(0);
    assert_eq!(r.set_clamped(3, 9_000_000), 500_000);
    assert_eq!(r.points, [0, 0, 0, 500_000, 0, 0, 0, 0, 0, 0]);
    assert_eq!(r.set_clamped(3, -9_000_000), -500_000);
    assert_eq!(r.points[3], -500_000);
    assert!(respects_slew(&r));
}

#[test]
fn edit_of_a_missing_checkpoint_changes_nothing() {
    let mut r = Ramp::flat(5);
    assert_eq!(r.set_clamped(10, 77), 77);
    assert_eq!(r.points, [5; 10]);
}

#[test]
fn adjust_moves_by_the_delta_within_the_window() {
    let mut r = Ramp::flat(100_000);
    assert_eq!(r.adjust(0, 250_000), 350_000);
    assert_eq!(r.adjust(0, 250_000), 600_000);
    assert_eq!(r.adjust(0, 250_000), 600_000);
    // Checkpoint 1 may not fall more than the slew limit below checkpoint 0.
    assert_eq!(r.adjust(1, -1_000_000), 100_000);
    assert_eq!(r.adjust(2, -1_000_000), -400_000);
    assert!(respects_slew(&r));
}

#[test]
fn slew_limit_holds_after_any_edit() {
    let mut r = Ramp::flat(0);
    let mut seed: u64 = 12345;
    for _ in 0..2000 {
        seed = seed.wrapping_mul(6364136223846793005).wrapping_add(1442695040888963407);
        let idx = ((seed >> 33) % 10) as usize;
        let delta = ((seed >> 13) % 4_000_001) as i64 - 2_000_000;
        let stored = r.adjust(idx, delta);
        assert_eq!(stored, r.points[idx]);
        if idx > 0 {
            assert!(within(r.points[idx], r.points[idx - 1]));
        }
        if idx < 9 {
            assert!(within(r.points[idx], r.points[idx + 1]));
        }
        assert!(respects_slew(&r));
    }
}

#[test]
fn a_ramp_can_climb_step_by_step() {
    let mut r = Ramp::flat(0);
    for first in 1..10 {
        for i in (first..10).rev() {
            r.adjust(i, MAX_RAMP_DELTA);
        }
    }
    assert_eq!(
        r.points,
        [0, 500_000, 1_000_000, 1_500_000, 2_000_000, 2_500_000, 3_000_000, 3_500_000, 4_000_000, 4_500_000]
    );
    assert!(respects_slew(&r));
}
