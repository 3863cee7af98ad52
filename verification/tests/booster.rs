use rustcade::booster::{
    chromaticity_quality, display, escaped_bucket, transition_kick, Awaiting, BeamSample,
    BoosterGame, ElementOutcome, TransitionKick, TurnReport, INJECTION_SIGMA_X, INJECTION_SIGMA_Y,
};
use rustcade::booster_play::{BoosterCommand, Effect};
use rustcade::bump::{BumpAxis, BumpConfig, TrimEdit};
use rustcade::controls::{DisplayMode, InputMode, SimSpeed};
use rustcade::corrector::{CorrectorPackage, CorrectorSelect};
use rustcade::energy::EnergyState;
use rustcade::input::Key;
use rustcade::lattice::ElementType;
use rustcade::notice::{Flash, Notice};
use rustcade::optics::{OpticsState, PlaneOptics};
use rustcade::phase::{GamePhase, TURNS_IN_CYCLE};
use rustcade::tracking::Bunch;

fn on_axis() -> BeamSample {
    BeamSample { x: 0, xp: 0, y: 0, yp: 0, sigma_x: INJECTION_SIGMA_X, sigma_y: INJECTION_SIGMA_Y }
}

/// A report on a turn at the point of the ramp where the cosine of the ramp
/// angle is `cos_ramp`, for a cell with tunes of 7.000001 and 6.999997.
fn report(cos_ramp: i64) -> TurnReport {
    TurnReport {
        cos_ramp,
        x: PlaneOptics { cos_mu: -258_819, mu: 1_832_596, m12: 20_000_000 },
        y: PlaneOptics { cos_mu: -258_819, mu: 1_832_595, m12: 12_000_000 },
        phi: 0,
        de: 0,
    }
}

/// A machine whose sextupoles bring both chromaticities to `x` and `y` for
/// the cell of `report`.
fn machine_with_chromaticities(x: i64, y: i64) -> BoosterGame {
    let mut game = BoosterGame::new();
    // -7.000001 + 2a + b = x and -6.999997 - a + 2b = y.
    let p = x + 7_000_001;
    let q = y + 6_999_997;
    assert_eq!((2 * p - q) % 5, 0);
    let a = (2 * p - q) / 5;
    game.correctors[3].sext_a = a;
    game.correctors[17].sext_b = p - 2 * a;
    game
}

/// A machine whose chromaticities are on target at transition.
fn tuned_machine() -> BoosterGame {
    machine_with_chromaticities(-7_000_000, -7_000_000)
}

// Cosines of the ramp angle at which the Lorentz factor stands at a given
// share of its transition value.
const EARLY: i64 = 1_000_000; // 0.261901
const PRE_TRANSITION: i64 = 209_000; // 0.850141
const AT_TRANSITION: i64 = 47_000; // 0.970615
const BEFORE_CROSSING: i64 = 20_933; // 0.990000
const CROSSING: i64 = 20_000; // 0.990694
const CROSSING_LATE: i64 = 763; // 1.005000
const CROSSED: i64 = -581; // 1.005999
const AFTER_CROSSING: i64 = -5_960; // 1.010000
const POST_TRANSITION: i64 = -33_000; // 1.030108

fn press(game: &mut BoosterGame, keys: &str) {
    for c in keys.chars() {
        game.handle_input(Key::Char(c));
    }
}

/// Carries the beam through one element, reporting `sample` behind it.
fn pass_element(game: &mut BoosterGame, sample: BeamSample) -> ElementOutcome {
    loop {
        if game.begin_step().is_some() {
            return game.finish_element(sample);
        }
        assert!(game.can_step());
    }
}

/// Carries the beam through one turn on axis and reports `cos_ramp`.
fn pass_turn(game: &mut BoosterGame, cos_ramp: i64) -> Option<TransitionKick> {
    loop {
        if pass_element(game, on_axis()) == ElementOutcome::TurnDone {
            return game.finish_turn(report(cos_ramp));
        }
    }
}

#[test]
fn fresh_machine() {
    let game = BoosterGame::new();
    assert_eq!(game.lattice.len(), 144);
    assert_eq!(game.correctors, vec![CorrectorPackage::new(); 24]);
    assert_eq!(game.phase, GamePhase::Setup);
    assert_eq!(game.sample, on_axis());
    assert_eq!(game.beam_intensity, 1_000_000);
    assert_eq!(game.rf_voltage, 500_000);
    assert_eq!(game.adjust_speed, 1_000);
    assert_eq!(game.sim_speed, SimSpeed::Slow);
    assert_eq!(game.display_mode, DisplayMode::Orbit);
    assert!(!game.beam_running);
    assert!(!game.is_game_over());
    assert!(!game.can_step());
    assert_eq!(game.get_score(), 1000);
    assert_eq!(game.stability_score(), 0);
}

#[test]
fn nothing_moves_before_injection() {
    let mut game = BoosterGame::new();
    assert_eq!(game.begin_tick(), 0);
    assert_eq!(game.tick, 1);
    assert_eq!(game.begin_step(), None);
    assert_eq!(game.beam_progress, 0);
    assert_eq!(game.finish_element(on_axis()), ElementOutcome::Unexpected);
    assert_eq!(game.finish_turn(report(EARLY)), None);
    game.end_tick();
    assert_eq!(game.pos_history.len(), 0);
    assert_eq!(game.phase, GamePhase::Setup);
}

#[test]
fn an_element_is_due_every_third_sub_step() {
    let mut game = BoosterGame::new();
    assert_eq!(game.handle_input(Key::Char(' ')), Effect::Injected);
    assert_eq!(game.phase, GamePhase::Injection);
    assert_eq!(game.begin_step(), None);
    assert_eq!(game.beam_progress, 35);
    assert_eq!(game.begin_step(), None);
    assert_eq!(game.beam_progress, 70);
    let due = game.begin_step().unwrap();
    assert_eq!((due.cell, due.index, due.elem_type), (0, 0, ElementType::FMagnet));
    assert_eq!(game.beam_progress, 0);
    assert_eq!(game.awaiting, Awaiting::Element);
    // Until the host has answered, no further sub-step begins.
    assert!(!game.can_step());
    assert_eq!(game.begin_step(), None);
    assert_eq!(game.finish_element(on_axis()), ElementOutcome::Advanced);
    assert_eq!(game.beam_element, 1);
    assert_eq!(game.awaiting, Awaiting::Nothing);
    // A second answer is not expected.
    assert_eq!(game.finish_element(on_axis()), ElementOutcome::Unexpected);
    assert_eq!(game.beam_element, 1);
}

#[test]
fn elements_come_in_ring_order() {
    let mut game = BoosterGame::new();
    game.handle_input(Key::Char(' '));
    let kinds = [
        ElementType::FMagnet,
        ElementType::ShortDrift,
        ElementType::FMagnet,
        ElementType::DMagnet,
        ElementType::LongDrift,
        ElementType::DMagnet,
    ];
    for n in 0..144 {
        let due = loop {
            if let Some(e) = game.begin_step() {
                break e;
            }
        };
        assert_eq!((due.cell, due.index, due.elem_type), (n / 6, n % 6, kinds[n % 6]));
        let outcome = game.finish_element(on_axis());
        let expected = if n == 143 {
            ElementOutcome::TurnDone
        } else if n % 6 == 5 {
            ElementOutcome::CellDone
        } else {
            ElementOutcome::Advanced
        };
        assert_eq!(outcome, expected);
    }
    assert_eq!(game.awaiting, Awaiting::Turn);
    assert_eq!(game.ramp_turn, 1);
    assert_eq!(game.turns_completed, 1);
    assert_eq!(game.best_turns, 1);
    assert_eq!(game.trail.len(), 24);
    assert_eq!(game.trail[5], (5, 0, display(INJECTION_SIGMA_X)));
    assert_eq!(game.turn_positions, vec![(0, 0)]);
    assert_eq!(game.x_xp_history, vec![(0, 0)]);
    assert_eq!(game.y_yp_history, vec![(0, 0)]);
}

#[test]
fn the_wall_is_at_fifty_display_units() {
    let mut game = BoosterGame::new();
    game.handle_input(Key::Char(' '));
    let mut far = on_axis();
    far.x = 100_000_000;
    far.sigma_x = 0;
    far.sigma_y = 0;
    assert_eq!(display(far.x), 50_000_000);
    // At the wall, not beyond: the beam goes on, shedding particles.
    assert_eq!(pass_element(&mut game, far), ElementOutcome::Advanced);
    assert_eq!(game.beam_losses, 7_500_000);
    far.y = -100_000_002;
    assert_eq!(pass_element(&mut game, far), ElementOutcome::HitWall);
    assert!(game.beam_lost);
    assert_eq!(game.phase, GamePhase::Lost);
    assert!(game.is_game_over());
    assert_eq!(game.message, Some(Flash { notice: Notice::HitWall, ticks: 60 }));
    assert_eq!(game.beam_losses, 7_500_000);
    assert!(!game.can_step());
    assert_eq!(game.begin_step(), None);
}

#[test]
fn soft_losses_add_up_and_cost_intensity() {
    let mut game = BoosterGame::new();
    game.handle_input(Key::Char(' '));
    let mut off = on_axis();
    off.x = 60_000_000;
    // Display position 30, display size 4.070334: the edge is at 32.035167.
    assert_eq!(pass_element(&mut game, off), ElementOutcome::Advanced);
    assert_eq!(game.beam_losses, 2_110_550);
    assert_eq!(game.beam_intensity, 997_890);
    let mut last = (game.beam_losses, game.beam_intensity);
    let mut outcome = ElementOutcome::Advanced;
    let mut elements = 1;
    while outcome != ElementOutcome::LossesExceeded {
        outcome = pass_element(&mut game, off);
        elements += 1;
        assert!(game.beam_losses > last.0);
        assert!(game.beam_intensity < last.1);
        last = (game.beam_losses, game.beam_intensity);
    }
    assert_eq!(elements, 48);
    assert_eq!(game.beam_losses, 48 * 2_110_550);
    assert!(game.beam_lost);
    assert_eq!(game.phase, GamePhase::Lost);
    assert_eq!(game.message, Some(Flash { notice: Notice::LossesExceeded, ticks: 60 }));
}

#[test]
fn phase_follows_the_energy() {
    let mut game = BoosterGame::new();
    game.handle_input(Key::Char(' '));
    pass_turn(&mut game, EARLY);
    assert_eq!(game.phase, GamePhase::EarlyRamp);
    assert_eq!(game.energy, EnergyState::at(1, EARLY));
    pass_turn(&mut game, PRE_TRANSITION);
    assert_eq!(game.phase, GamePhase::PreTransition);
    pass_turn(&mut game, AT_TRANSITION);
    assert_eq!(game.phase, GamePhase::Transition);
    pass_turn(&mut game, POST_TRANSITION);
    assert_eq!(game.phase, GamePhase::PostTransition);
    assert_eq!(game.ramp_turn, 4);
    assert_eq!(game.energy.turn, 4);
    assert_eq!(game.phi_history, vec![0, 0, 0, 0]);
}

#[test]
fn optics_follow_the_report() {
    let mut game = BoosterGame::new();
    assert_eq!(game.optics, OpticsState::bare());
    game.handle_input(Key::Char(' '));
    let r = report(EARLY);
    game.update_optics(r.x, r.y);
    assert_eq!(
        game.optics,
        OpticsState {
            tune_x: 7_000_001,
            tune_y: 6_999_997,
            beta_x_max: 20_705_541,
            beta_y_max: 12_423_324,
            dispersion_max: 235_660,
            chromaticity_x: -7_000_001,
            chromaticity_y: -6_999_997,
            sc_tune_shift: -105_166,
        }
    );
    pass_turn(&mut game, 7_487);
    assert_eq!(game.optics.dispersion_max, 50_000_000);
    assert_eq!(game.optics.sc_tune_shift, -5_232);
    assert_eq!(game.optics.tune_x, 7_000_001);
}

#[test]
fn the_crossing_acts_until_it_is_complete_and_completes_once() {
    let mut game = tuned_machine();
    game.handle_input(Key::Char(' '));
    assert_eq!(pass_turn(&mut game, AT_TRANSITION), None);
    assert_eq!(pass_turn(&mut game, BEFORE_CROSSING), None);
    let quiet = Some(TransitionKick { phase_kick: 50_000, energy_kick: 500, blowup: 1_000_000 });
    assert_eq!(pass_turn(&mut game, CROSSING), quiet);
    assert!(!game.transition_crossed);
    assert_eq!(pass_turn(&mut game, CROSSING_LATE), quiet);
    assert!(!game.transition_crossed);
    assert_eq!(game.message.map(|f| f.notice), Some(Notice::Injected));
    assert_eq!(pass_turn(&mut game, CROSSED), quiet);
    assert!(game.transition_crossed);
    assert_eq!(game.message, Some(Flash { notice: Notice::TransitionCrossed { quality: 0 }, ticks: 90 }));
    assert_eq!(game.get_score(), 1000 + 5 + 500);
    // Once crossed, the crossing never acts again.
    game.message = None;
    assert_eq!(pass_turn(&mut game, CROSSED), None);
    assert_eq!(pass_turn(&mut game, CROSSING), None);
    assert!(game.transition_crossed);
    assert_eq!(game.message, None);
    assert_eq!(game.beam_losses, 0);
    assert_eq!(game.beam_intensity, 1_000_000);
    assert_eq!(game.get_score(), 1000 + 7 + 500);
}

#[test]
fn the_crossing_does_not_act_outside_its_window() {
    let mut game = machine_with_chromaticities(-6_700_000, -7_800_000);
    game.handle_input(Key::Char(' '));
    assert_eq!(pass_turn(&mut game, BEFORE_CROSSING), None);
    assert_eq!(pass_turn(&mut game, AFTER_CROSSING), None);
    assert_eq!(pass_turn(&mut game, POST_TRANSITION), None);
    assert!(!game.transition_crossed);
    assert_eq!(game.beam_losses, 0);
}

#[test]
fn bad_chromaticity_costs_at_the_crossing() {
    assert_eq!(chromaticity_quality(-6_700_000, -7_800_000), 1_100_000);
    assert_eq!(chromaticity_quality(-7_000_000, 7_000_000), 0);
    assert_eq!(chromaticity_quality(-1_000_000, -100_000_000), 99_000_000);
    assert_eq!(
        transition_kick(1_100_000),
        TransitionKick { phase_kick: 83_000, energy_kick: 830, blowup: 1_055_000 }
    );
    let mut game = machine_with_chromaticities(-6_700_000, -7_800_000);
    game.handle_input(Key::Char(' '));
    let kick = pass_turn(&mut game, CROSSING);
    assert_eq!(game.optics.chromaticity_x, -6_700_000);
    assert_eq!(game.optics.chromaticity_y, -7_800_000);
    assert_eq!(kick, Some(TransitionKick { phase_kick: 83_000, energy_kick: 830, blowup: 1_055_000 }));
    assert_eq!(game.beam_losses, 2_200_000);
    assert_eq!(game.beam_intensity, 989_000);
    // However bad the chromaticity, at least half the beam survives a crossing.
    let worse = machine_with_chromaticities(-1_000_000, -100_000_000);
    game.correctors = worse.correctors;
    let kick = pass_turn(&mut game, CROSSING);
    assert_eq!(kick, Some(TransitionKick { phase_kick: 3_020_000, energy_kick: 30_200, blowup: 5_950_000 }));
    assert_eq!(game.beam_intensity, 494_500);
    assert_eq!(game.beam_losses, 2_200_000 + 198_000_000);
    // The losses are noticed behind the next element.
    assert!(!game.beam_lost);
    assert_eq!(pass_element(&mut game, on_axis()), ElementOutcome::LossesExceeded);
}

#[test]
fn the_edge_of_the_bucket() {
    assert!(!escaped_bucket(0, 0, 10_000));
    assert!(!escaped_bucket(0, 30_000, 10_000));
    assert!(escaped_bucket(0, 30_001, 10_000));
    assert!(escaped_bucket(0, -30_001, 10_000));
    assert!(!escaped_bucket(3_141_593, 0, 10_000));
    assert!(escaped_bucket(3_141_594, 0, 10_000));
    assert!(escaped_bucket(-3_141_594, 0, 10_000));
    // Where the slip factor vanishes the bucket is a thousandth of a GeV high.
    assert!(!escaped_bucket(0, 3_000, 1_000));
    assert!(escaped_bucket(0, 3_001, 1_000));
}

/// A game whose beam has just completed its first turn.
fn after_one_lap() -> BoosterGame {
    let mut game = BoosterGame::new();
    game.handle_input(Key::Char(' '));
    while pass_element(&mut game, on_axis()) != ElementOutcome::TurnDone {}
    game
}

#[test]
fn a_beam_on_the_edge_of_the_bucket_stays() {
    // At injection energy and half a megavolt the bucket is 0.002372 GeV high.
    let mut game = after_one_lap();
    let mut r = report(EARLY);
    r.de = -7_116;
    r.phi = 3_141_593;
    assert_eq!(game.finish_turn(r), None);
    assert!(!game.beam_lost);
    assert_eq!(game.phase, GamePhase::EarlyRamp);
    assert_eq!(game.beam_losses, 0);
    assert_eq!(game.message, Some(Flash { notice: Notice::Injected, ticks: 60 }));
    assert!(game.can_step());
    assert_eq!(game.phi_history, vec![3_141_593]);
    assert_eq!(game.de_history, vec![-7_116]);
}

#[test]
fn a_beam_outside_the_bucket_is_lost() {
    let mut game = after_one_lap();
    let mut r = report(EARLY);
    r.de = 7_117;
    assert_eq!(game.finish_turn(r), None);
    assert!(game.beam_lost);
    assert_eq!(game.phase, GamePhase::Lost);
    assert!(game.is_game_over());
    assert_eq!(game.awaiting, Awaiting::Nothing);
    assert_eq!(game.message, Some(Flash { notice: Notice::LeftBucket, ticks: 60 }));
    // The escape costs the beam, not a share of it.
    assert_eq!(game.beam_losses, 0);
    assert_eq!(game.beam_intensity, 1_000_000);
    assert_eq!(game.ramp_turn, 1);
    assert_eq!(game.de_history, vec![7_117]);
    assert_eq!(game.phi_history, vec![0]);
    // Nothing moves any more.
    assert!(!game.can_step());
    assert_eq!(game.begin_step(), None);
    assert_eq!(game.finish_turn(r), None);
    assert_eq!(game.begin_tick(), 0);
    game.end_tick();
    assert_eq!(game.phase, GamePhase::Lost);
    // The loss is recoverable: after a restart a beam can be injected again.
    assert_eq!(game.handle_input(Key::Char(' ')), Effect::Restarted);
    assert_eq!(game.phase, GamePhase::Setup);
    assert!(!game.beam_lost);
    assert_eq!(game.handle_input(Key::Char(' ')), Effect::Injected);
    assert!(game.can_step());
}

#[test]
fn a_beam_half_a_turn_out_of_phase_is_lost() {
    let mut game = after_one_lap();
    let mut r = report(EARLY);
    r.phi = -3_141_594;
    assert_eq!(game.finish_turn(r), None);
    assert!(game.beam_lost);
    assert_eq!(game.phase, GamePhase::Lost);
    assert_eq!(game.message, Some(Flash { notice: Notice::LeftBucket, ticks: 60 }));
    assert_eq!(game.beam_losses, 0);
}

#[test]
fn more_voltage_makes_the_bucket_higher() {
    let mut game = BoosterGame::new();
    game.handle_input(Key::Char(' '));
    for _ in 0..33 {
        press(&mut game, "f");
    }
    assert_eq!(game.rf_voltage, 1_160_000);
    let mut r = report(EARLY);
    r.de = 10_842;
    while pass_element(&mut game, on_axis()) != ElementOutcome::TurnDone {}
    assert_eq!(game.finish_turn(r), None);
    assert!(!game.beam_lost);
    r.de = 10_843;
    while pass_element(&mut game, on_axis()) != ElementOutcome::TurnDone {}
    assert_eq!(game.finish_turn(r), None);
    assert!(game.beam_lost);
    assert_eq!(game.phase, GamePhase::Lost);
    assert_eq!(game.de_history, vec![10_842, 10_843]);
}

#[test]
fn a_beam_outside_the_bucket_does_not_cross_transition() {
    let mut game = machine_with_chromaticities(-7_300_000, -7_800_000);
    game.handle_input(Key::Char(' '));
    while pass_element(&mut game, on_axis()) != ElementOutcome::TurnDone {}
    let mut r = report(CROSSING_LATE - 1);
    r.phi = 3_200_000;
    assert_eq!(game.finish_turn(r), None);
    assert_eq!(game.phase, GamePhase::Lost);
    assert!(!game.transition_crossed);
    assert_eq!(game.beam_losses, 0);
    assert_eq!(game.beam_intensity, 1_000_000);
    assert_eq!(game.message, Some(Flash { notice: Notice::LeftBucket, ticks: 60 }));
    // In the bucket, the same turn would have completed the crossing.
    let mut game = machine_with_chromaticities(-7_300_000, -7_800_000);
    game.handle_input(Key::Char(' '));
    while pass_element(&mut game, on_axis()) != ElementOutcome::TurnDone {}
    assert!(game.finish_turn(report(CROSSING_LATE - 1)).is_some());
    assert!(game.transition_crossed);
    assert_eq!(game.beam_losses, 2_200_000);
}

#[test]
fn a_beam_that_leaves_the_bucket_in_the_last_turn_is_not_extracted() {
    let mut game = BoosterGame::new();
    game.handle_input(Key::Char(' '));
    game.ramp_turn = TURNS_IN_CYCLE - 1;
    game.turns_completed = TURNS_IN_CYCLE - 1;
    game.best_turns = TURNS_IN_CYCLE - 1;
    while pass_element(&mut game, on_axis()) != ElementOutcome::TurnDone {}
    let mut r = report(EARLY);
    r.de = 1_000_000;
    assert_eq!(game.finish_turn(r), None);
    assert_eq!(game.ramp_turn, TURNS_IN_CYCLE);
    assert_eq!(game.phase, GamePhase::Lost);
    assert!(game.beam_lost);
    assert!(game.is_game_over());
    assert_eq!(game.get_score(), 1000 + 15_000);
    assert!(!game.can_step());
}

#[test]
fn injection_brings_the_envelope_back_to_size() {
    let mut game = BoosterGame::new();
    game.bunch.sigma_x = 12_000_000_000;
    game.bunch.sigma_y = 500_000_000;
    game.sample.sigma_x = 12_000_000;
    game.sample.sigma_y = 500_000;
    assert_eq!(game.handle_input(Key::Char(' ')), Effect::Injected);
    assert_eq!(game.bunch, Bunch::injected_at(0, 0));
    assert_eq!(game.bunch.sigma_x, 8_140_668_019);
    assert_eq!(game.bunch.sigma_y, 6_333_739_212);
    assert_eq!(game.sample, on_axis());
    assert_eq!(
        Bunch::injected_at(2_500_000, -1_000_000),
        Bunch { x: 2_500_000_000, y: -1_000_000_000, ..Bunch::fresh() }
    );
}

#[test]
fn the_last_turn_of_the_cycle_extracts_the_beam() {
    let mut game = BoosterGame::new();
    game.handle_input(Key::Char(' '));
    game.ramp_turn = TURNS_IN_CYCLE - 2;
    game.turns_completed = TURNS_IN_CYCLE - 2;
    game.best_turns = TURNS_IN_CYCLE - 2;
    pass_turn(&mut game, EARLY);
    assert_eq!(game.phase, GamePhase::EarlyRamp);
    assert!(!game.is_game_over());
    assert_eq!(game.get_score(), 1000 + 14_999);
    pass_turn(&mut game, EARLY);
    assert_eq!(game.ramp_turn, TURNS_IN_CYCLE);
    assert_eq!(game.phase, GamePhase::Extraction);
    assert!(game.is_game_over());
    assert!(!game.beam_running);
    assert!(!game.beam_lost);
    assert_eq!(game.get_score(), 1000 + 15_000 + 2000);
    // Nothing moves any more, and the bonus is counted once.
    assert!(!game.can_step());
    assert_eq!(game.begin_step(), None);
    assert_eq!(game.finish_turn(report(EARLY)), None);
    assert_eq!(game.begin_tick(), 0);
    game.end_tick();
    assert_eq!(game.ramp_turn, TURNS_IN_CYCLE);
    assert_eq!(game.get_score(), 1000 + 15_000 + 2000);
}

#[test]
fn a_whole_cycle() {
    let mut game = tuned_machine();
    game.handle_input(Key::Char(' '));
    let mut losses = 0;
    let mut energy = game.energy.ke;
    let mut turns = 0;
    let mut crossed_at = 0;
    while !game.is_game_over() {
        let angle = std::f64::consts::PI * (game.ramp_turn + 1) as f64 / TURNS_IN_CYCLE as f64;
        pass_turn(&mut game, (angle.cos() * 1e6).round() as i64);
        turns += 1;
        assert_eq!(game.ramp_turn, turns);
        assert!(game.beam_losses >= losses);
        assert!(game.energy.ke >= energy);
        losses = game.beam_losses;
        energy = game.energy.ke;
        if game.transition_crossed && crossed_at == 0 {
            crossed_at = turns;
        }
    }
    // Past transition, the beam counts as extracted 500 turns before the end.
    assert_eq!(turns, 14_500);
    assert_eq!(game.phase, GamePhase::Extraction);
    assert!(game.transition_crossed);
    assert_eq!(crossed_at, 7_497);
    assert_eq!(game.best_turns, 14_500);
    assert_eq!(game.get_score(), 1000 + 14_500 + 500 + 2000);
    assert_eq!(game.x_xp_history.len(), 60);
    assert_eq!(game.turn_positions.len(), 20);
    assert_eq!(game.trail.len(), 72);
    assert!(game.energy.ke > 7_900_000);
}

#[test]
fn a_tick_runs_as_many_sub_steps_as_the_speed_says() {
    let mut game = BoosterGame::new();
    game.handle_input(Key::Char(' '));
    assert_eq!(game.begin_tick(), 4);
    game.end_tick();
    press(&mut game, ".");
    assert_eq!(game.sim_speed, SimSpeed::Normal);
    assert_eq!(game.begin_tick(), 14);
    game.end_tick();
    press(&mut game, ">");
    assert_eq!(game.begin_tick(), 144);
    assert_eq!(game.tick, 3);
    let mut moved = on_axis();
    moved.x = 8_000_000;
    moved.y = -4_000_000;
    pass_element(&mut game, moved);
    game.end_tick();
    assert_eq!(game.pos_history, vec![4_000_000]);
    assert_eq!(game.y_pos_history, vec![-2_000_000]);
    assert_eq!(game.size_history, vec![display(INJECTION_SIGMA_X)]);
    assert_eq!(game.y_size_history, vec![display(INJECTION_SIGMA_Y)]);
    press(&mut game, "p");
    assert_eq!(game.begin_tick(), 0);
    assert_eq!(game.tick, 3);
    game.end_tick();
    assert_eq!(game.pos_history.len(), 1);
}

#[test]
fn injection_resets_the_beam_and_its_losses() {
    let mut game = BoosterGame::new();
    game.beam_losses = 5;
    game.beam_intensity = 7;
    game.transition_crossed = true;
    game.trail = vec![(1, 2, 3)];
    assert_eq!(game.apply_command(BoosterCommand::Inject), Effect::Injected);
    assert!(game.beam_running);
    assert_eq!(game.phase, GamePhase::Injection);
    assert_eq!(game.beam_losses, 0);
    assert_eq!(game.beam_intensity, 1_000_000);
    assert!(!game.transition_crossed);
    assert!(game.trail.is_empty());
    assert_eq!(game.message, Some(Flash { notice: Notice::Injected, ticks: 60 }));
    // While a beam is running, none is injected.
    pass_element(&mut game, on_axis());
    assert_eq!(game.apply_command(BoosterCommand::Inject), Effect::Nothing);
    assert_eq!(game.beam_element, 1);
}

#[test]
fn injection_at_typed_coordinates() {
    let mut game = BoosterGame::new();
    press(&mut game, "i");
    assert_eq!(game.input_mode, InputMode::InjectX);
    // While typing, every key goes to the buffer or is ignored.
    press(&mut game, "1.x5r");
    assert_eq!(game.input_buffer, vec!['1', '.', '5']);
    game.handle_input(Key::Backspace);
    press(&mut game, "25");
    assert_eq!(game.handle_input(Key::Enter), Effect::Nothing);
    assert_eq!(game.inject_x, 1_250_000);
    assert_eq!(game.input_mode, InputMode::InjectY);
    assert!(game.input_buffer.is_empty());
    press(&mut game, "-.");
    assert_eq!(game.handle_input(Key::Enter), Effect::Nothing);
    assert_eq!(
        game.message,
        Some(Flash { notice: Notice::InvalidCoordinate { axis: BumpAxis::Y }, ticks: 45 })
    );
    assert_eq!(game.input_mode, InputMode::InjectY);
    assert!(game.input_buffer.is_empty());
    press(&mut game, "-3");
    assert_eq!(game.handle_input(Key::Enter), Effect::Injected);
    assert_eq!(game.input_mode, InputMode::Idle);
    assert_eq!(game.inject_y, -3_000_000);
    assert!(game.beam_running);
    assert_eq!(game.sample.x, 1_250_000);
    assert_eq!(game.sample.y, -3_000_000);
    assert_eq!(game.sample.xp, 0);
    assert_eq!(game.sample.sigma_x, INJECTION_SIGMA_X);
    assert_eq!(
        game.message,
        Some(Flash { notice: Notice::InjectedAt { x: 1_250_000, y: -3_000_000 }, ticks: 60 })
    );
}

#[test]
fn typing_can_be_abandoned() {
    let mut game = BoosterGame::new();
    press(&mut game, "I12");
    assert_eq!(game.handle_input(Key::Esc), Effect::Nothing);
    assert_eq!(game.input_mode, InputMode::Idle);
    assert!(game.input_buffer.is_empty());
    assert!(!game.beam_running);
    assert_eq!(game.message, Some(Flash { notice: Notice::InjectCancelled, ticks: 30 }));
    press(&mut game, "i");
    game.handle_input(Key::Enter);
    assert_eq!(
        game.message,
        Some(Flash { notice: Notice::InvalidCoordinate { axis: BumpAxis::X }, ticks: 45 })
    );
    assert_eq!(game.input_mode, InputMode::InjectX);
}

#[test]
fn correctors_are_selected_and_adjusted() {
    let mut game = BoosterGame::new();
    press(&mut game, "]]");
    assert_eq!(game.selected_cell, 2);
    game.handle_input(Key::Down);
    game.handle_input(Key::Down);
    assert_eq!(game.selected_corrector, CorrectorSelect::TrimQuad);
    game.handle_input(Key::Right);
    game.handle_input(Key::Right);
    game.handle_input(Key::Left);
    assert_eq!(game.correctors[2].trim_quad, 1_000);
    game.handle_input(Key::Up);
    assert_eq!(game.selected_corrector, CorrectorSelect::VTrim);
    press(&mut game, "+");
    game.handle_input(Key::Left);
    assert_eq!(game.correctors[2].v_trim, -2_000);
    press(&mut game, "[[[");
    assert_eq!(game.selected_cell, 23);
    press(&mut game, "]");
    assert_eq!(game.selected_cell, 0);
    game.adjust_corrector(24, CorrectorSelect::HTrim, 5);
    game.adjust_corrector(5, CorrectorSelect::SextB, 5);
    assert_eq!(game.correctors[5].sext_b, 5);
    assert_eq!(game.correctors.len(), 24);
}

#[test]
fn copying_and_zeroing_correctors() {
    let mut game = BoosterGame::new();
    press(&mut game, "]");
    game.handle_input(Key::Right);
    game.handle_input(Key::Down);
    game.handle_input(Key::Left);
    let set = CorrectorPackage { h_trim: 1_000, v_trim: -1_000, ..CorrectorPackage::new() };
    assert_eq!(game.correctors[1], set);
    press(&mut game, "c");
    assert_eq!(game.correctors, vec![set; 24]);
    assert_eq!(game.message, Some(Flash { notice: Notice::CopiedCorrectors { cell: 1 }, ticks: 45 }));
    press(&mut game, "z");
    assert_eq!(game.correctors[1], CorrectorPackage { h_trim: 1_000, ..CorrectorPackage::new() });
    assert_eq!(game.correctors[2], set);
}

#[test]
fn a_bump_kicks_the_trims_with_its_coefficients() {
    let mut game = BoosterGame::new();
    press(&mut game, "[[b");
    assert_eq!(game.bump, Some(BumpConfig::new(3, 22)));
    press(&mut game, "bb");
    assert_eq!(game.bump, Some(BumpConfig::new(5, 22)));
    game.handle_input(Key::Up);
    let h: Vec<i64> = game.correctors.iter().map(|c| c.h_trim).collect();
    let v: Vec<i64> = game.correctors.iter().map(|c| c.v_trim).collect();
    let mut expected = vec![0i64; 24];
    expected[22] = 1_000;
    expected[23] = -2_000;
    expected[0] = 2_000;
    expected[1] = -2_000;
    expected[2] = 1_000;
    assert_eq!(h, expected);
    assert_eq!(v, expected);
    assert_eq!(h.iter().sum::<i64>(), 0);
    press(&mut game, "s");
    assert!(game.correctors.iter().all(|c| c.h_trim == 0));
    assert_eq!(game.correctors[23].v_trim, -2_000);
    press(&mut game, "qq");
    assert_eq!(game.correctors[23].v_trim, 2_000);
    game.handle_input(Key::Right);
    assert_eq!(game.bump.unwrap().start_section, 23);
    game.handle_input(Key::Right);
    assert_eq!(game.bump.unwrap().start_section, 0);
    game.handle_input(Key::Left);
    game.handle_input(Key::Left);
    assert_eq!(game.bump.unwrap().start_section, 22);
    press(&mut game, "w");
    press(&mut game, "Z");
    assert!(game.correctors.iter().all(|c| c.h_trim == 0 && c.v_trim == 0));
    assert_eq!(game.message, Some(Flash { notice: Notice::ZeroedTrims, ticks: 30 }));
    press(&mut game, "b");
    assert_eq!(game.bump, None);
    assert_eq!(
        game.command_for(Key::Char('w')),
        Some(BoosterCommand::EditBump { horizontal: true, vertical: false, edit: TrimEdit::Raise })
    );
    press(&mut game, "w");
    assert!(game.correctors.iter().all(|c| c.h_trim == 0));
}

#[test]
fn supplies_stay_within_their_limits() {
    let mut game = BoosterGame::new();
    press(&mut game, "f");
    assert_eq!(game.rf_voltage, 520_000);
    assert_eq!(game.message, Some(Flash { notice: Notice::RfVoltage { megavolts: 520_000 }, ticks: 30 }));
    for _ in 0..40 {
        press(&mut game, "F");
    }
    assert_eq!(game.rf_voltage, 1_160_000);
    for _ in 0..70 {
        press(&mut game, "g");
    }
    assert_eq!(game.rf_voltage, 0);
    press(&mut game, "t");
    assert_eq!(game.rf_phase, 180_000_000);
    press(&mut game, "T");
    assert_eq!(game.rf_phase, 0);
    for _ in 0..10 {
        press(&mut game, "+");
    }
    assert_eq!(game.adjust_speed, 1_000_000);
    press(&mut game, "j");
    assert_eq!(game.quad_bus_trim, 200_000);
    press(&mut game, "k");
    assert_eq!(game.quad_bus_trim, -200_000);
    press(&mut game, "m");
    assert_eq!(game.bend_bus_trim, 100_000);
    press(&mut game, "n");
    assert_eq!(game.bend_bus_trim, -100_000);
    for _ in 0..20 {
        press(&mut game, "-");
    }
    assert_eq!(game.adjust_speed, 100);
    press(&mut game, "M");
    assert_eq!(game.bend_bus_trim, -99_900);
    assert_eq!(game.message, Some(Flash { notice: Notice::BendBus { trim: -99_900 }, ticks: 30 }));
    press(&mut game, "v");
    assert_eq!(game.display_mode, DisplayMode::PhaseSpaceX);
}

#[test]
fn reset_keeps_what_the_player_has_set() {
    let mut game = BoosterGame::new();
    press(&mut game, "]]");
    game.handle_input(Key::Right);
    press(&mut game, "fjmv.b+ ");
    pass_turn(&mut game, EARLY);
    let mut off = on_axis();
    off.x = 200_000_000;
    pass_element(&mut game, off);
    assert!(game.beam_lost);
    // After the end only the reset keys work.
    press(&mut game, "]f");
    assert_eq!(game.rf_voltage, 520_000);
    assert_eq!(game.handle_input(Key::Enter), Effect::Restarted);
    assert!(!game.beam_lost);
    assert!(!game.beam_running);
    assert_eq!(game.phase, GamePhase::Setup);
    assert_eq!(game.beam_losses, 0);
    assert_eq!(game.ramp_turn, 0);
    assert_eq!(game.turns_completed, 0);
    assert_eq!(game.best_turns, 1);
    assert_eq!(game.sample, on_axis());
    assert!(game.trail.is_empty());
    assert!(game.turn_positions.is_empty());
    assert_eq!(game.message, None);
    assert_eq!(game.correctors[2].h_trim, 1_000);
    assert_eq!(game.selected_cell, 2);
    assert_eq!(game.rf_voltage, 520_000);
    assert_eq!(game.quad_bus_trim, 1_000);
    assert_eq!(game.bend_bus_trim, 1_000);
    assert_eq!(game.display_mode, DisplayMode::PhaseSpaceX);
    assert_eq!(game.sim_speed, SimSpeed::Normal);
    assert_eq!(game.bump, Some(BumpConfig::new(3, 2)));
    assert_eq!(game.adjust_speed, 2_000);
}

#[test]
fn pause_holds_the_keys() {
    let mut game = BoosterGame::new();
    press(&mut game, " p");
    assert!(game.paused);
    press(&mut game, "]fb");
    assert_eq!(game.selected_cell, 0);
    assert_eq!(game.rf_voltage, 500_000);
    assert_eq!(game.bump, None);
    press(&mut game, "p");
    assert!(!game.paused);
    assert_eq!(game.command_for(Key::Char('x')), None);
    assert_eq!(game.handle_input(Key::Other), Effect::Nothing);
}
