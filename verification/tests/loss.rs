use rustcade::loss::{accumulate, hits_wall, step_loss, APERTURE, LOSS_ZONE, MAX_LOSSES};
use rustcade::fixed::LIMIT;

#[test]
fn loss_constants() {
    assert_eq!(APERTURE, 50_000_000);
    assert_eq!(LOSS_ZONE, 25_000_000);
    assert_eq!(MAX_LOSSES, 100_000_000);
}

#[test]
fn wall_is_hit_beyond_the_aperture_only() {
    assert!(!hits_wall(0, 0));
    assert!(!hits_wall(50_000_000, -50_000_000));
    assert!(hits_wall(50_000_001, 0));
    assert!(hits_wall(-50_000_001, 0));
    assert!(hits_wall(0, 50_000_001));
    assert!(hits_wall(0, -50_000_001));
}

#[test]
fn nothing_is_shed_inside_the_loss_zone() {
    assert_eq!(step_loss(0, 10_000_000, 0, 10_000_000, 1, 2), 0);
    assert_eq!(step_loss(20_000_000, 10_000_000, -20_000_000, 10_000_000, 1, 2), 0);
}

#[test]
fn loss_is_proportional_to_the_protrusion() {
    // Edge at 35, ten beyond the zone, at a rate of one half.
    assert_eq!(step_loss(30_000_000, 10_000_000, 0, 10_000_000, 1, 2), 5_000_000);
    // The same on the negative side, at a rate of three tenths.
    assert_eq!(step_loss(-30_000_000, 10_000_000, 0, 10_000_000, 3, 10), 3_000_000);
}

#[test]
fn a_wide_beam_sheds_on_both_sides() {
    assert_eq!(step_loss(0, 60_000_000, 0, 10_000_000, 1, 2), 5_000_000);
}

#[test]
fn both_planes_add_up() {
    assert_eq!(step_loss(24_000_000, 10_000_001, 26_000_000, 3, 3, 10), 1_500_000);
}

#[test]
fn accumulate_adds_only_what_is_positive() {
    assert_eq!(accumulate(7, 5), 12);
    assert_eq!(accumulate(7, 0), 7);
    assert_eq!(accumulate(7, -5), 7);
    assert_eq!(accumulate(LIMIT, 5), LIMIT);
}
