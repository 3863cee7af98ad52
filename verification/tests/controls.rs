use rustcade::controls::{coarser, finer, Difficulty, DisplayMode, SimSpeed, MAX_ADJUST_SPEED};
use rustcade::corrector::{CorrectorPackage, CorrectorSelect};
use rustcade::history::record;
use rustcade::input::Key;
use rustcade::notice::{faded, flash, Flash, Notice};
use rustcade::phase::{ramp_phase, GamePhase, TURNS_IN_CYCLE};

#[test]
fn difficulty() {
    assert_eq!(Difficulty::Easy.label(), "Easy");
    assert_eq!(Difficulty::Hard.label(), "Hard");
    assert_eq!(Difficulty::Easy.toggle(), Difficulty::Hard);
    assert_eq!(Difficulty::Hard.toggle(), Difficulty::Easy);
    assert_eq!(Difficulty::Easy.size_growth_rate(), 0);
    assert_eq!(Difficulty::Hard.size_growth_rate(), 50_000);
}

#[test]
fn sim_speed() {
    assert_eq!(SimSpeed::Slow.steps_per_tick(), 4);
    assert_eq!(SimSpeed::Normal.steps_per_tick(), 14);
    assert_eq!(SimSpeed::Fast.steps_per_tick(), 144);
    assert_eq!(SimSpeed::Slow.label(), ">");
    assert_eq!(SimSpeed::Normal.label(), ">>");
    assert_eq!(SimSpeed::Fast.label(), ">>>");
    assert_eq!(SimSpeed::Slow.next(), SimSpeed::Normal);
    assert_eq!(SimSpeed::Normal.next(), SimSpeed::Fast);
    assert_eq!(SimSpeed::Fast.next(), SimSpeed::Slow);
}

#[test]
fn display_mode_cycles_both_ways() {
    let all = [
        DisplayMode::Orbit,
        DisplayMode::PhaseSpaceX,
        DisplayMode::PhaseSpaceY,
        DisplayMode::Longitudinal,
        DisplayMode::TuneDiagram,
    ];
    let labels = ["Orbit", "X-X'", "Y-Y'", "Longit.", "Tune"];
    for i in 0..5 {
        assert_eq!(all[i].next(), all[(i + 1) % 5]);
        assert_eq!(all[i].prev(), all[(i + 4) % 5]);
        assert_eq!(all[i].label(), labels[i]);
    }
}

#[test]
fn adjustment_step_doubles_up_to_one() {
    assert_eq!(coarser(1_000), 2_000);
    assert_eq!(coarser(500_000), 1_000_000);
    assert_eq!(coarser(600_000), MAX_ADJUST_SPEED);
    assert_eq!(coarser(1_000_000), 1_000_000);
}

#[test]
fn adjustment_step_halves_down_to_the_floor() {
    assert_eq!(finer(1_000, 100), 500);
    assert_eq!(finer(125, 100), 100);
    assert_eq!(finer(100, 100), 100);
    assert_eq!(finer(2_001, 1_000), 1_000);
    assert_eq!(finer(10_000, 1_000), 5_000);
}

#[test]
fn corrector_selection_cycles_both_ways() {
    let all = [
        CorrectorSelect::HTrim,
        CorrectorSelect::VTrim,
        CorrectorSelect::TrimQuad,
        CorrectorSelect::SkewQuad,
        CorrectorSelect::SextA,
        CorrectorSelect::SextB,
    ];
    let labels = ["H-Trim", "V-Trim", "Tr-Quad", "Sk-Quad", "Sext-A", "Sext-B"];
    for i in 0..6 {
        assert_eq!(all[i].next(), all[(i + 1) % 6]);
        assert_eq!(all[i].prev(), all[(i + 5) % 6]);
        assert_eq!(all[i].label(), labels[i]);
    }
}

#[test]
fn corrector_package_values() {
    let p = CorrectorPackage::new();
    assert_eq!(
        p,
        CorrectorPackage { h_trim: 0, v_trim: 0, trim_quad: 0, skew_quad: 0, sext_a: 0, sext_b: 0 }
    );
    let p = p.with(CorrectorSelect::SextA, 5).adjusted(CorrectorSelect::SextA, -7);
    assert_eq!(p.sext_a, -2);
    assert_eq!(p.value(CorrectorSelect::SextA), -2);
    assert_eq!(p.value(CorrectorSelect::SextB), 0);
    let p = p.kicked(3, -4);
    assert_eq!(p.h_trim, 3);
    assert_eq!(p.v_trim, -4);
    assert_eq!(p.sext_a, -2);
    let p = p.adjusted(CorrectorSelect::HTrim, i64::MAX);
    assert_eq!(p.h_trim, rustcade::fixed::LIMIT);
}

#[test]
fn phase_follows_the_gamma_ratio() {
    assert_eq!(ramp_phase(0, 0), GamePhase::EarlyRamp);
    assert_eq!(ramp_phase(849_999, 0), GamePhase::EarlyRamp);
    assert_eq!(ramp_phase(850_000, 0), GamePhase::PreTransition);
    assert_eq!(ramp_phase(969_999, 0), GamePhase::PreTransition);
    assert_eq!(ramp_phase(970_000, 0), GamePhase::Transition);
    assert_eq!(ramp_phase(1_029_999, 0), GamePhase::Transition);
    assert_eq!(ramp_phase(1_030_000, 0), GamePhase::PostTransition);
    assert_eq!(ramp_phase(1_750_000, 14_499), GamePhase::PostTransition);
    assert_eq!(ramp_phase(1_750_000, 14_500), GamePhase::Extraction);
    assert_eq!(ramp_phase(1_750_000, TURNS_IN_CYCLE), GamePhase::Extraction);
    assert_eq!(ramp_phase(500_000, 14_900), GamePhase::EarlyRamp);
}

#[test]
fn phase_labels_and_terminal_phases() {
    assert_eq!(GamePhase::Setup.label(), "SETUP");
    assert_eq!(GamePhase::Injection.label(), "INJECT");
    assert_eq!(GamePhase::EarlyRamp.label(), "RAMP");
    assert_eq!(GamePhase::PreTransition.label(), "PRE-Xt");
    assert_eq!(GamePhase::Transition.label(), "TRANSITION");
    assert_eq!(GamePhase::PostTransition.label(), "POST-Xt");
    assert_eq!(GamePhase::Extraction.label(), "EXTRACTED!");
    assert_eq!(GamePhase::Lost.label(), "LOST");
    assert!(GamePhase::Extraction.is_terminal());
    assert!(GamePhase::Lost.is_terminal());
    assert!(!GamePhase::Setup.is_terminal());
    assert!(!GamePhase::Transition.is_terminal());
}

#[test]
fn history_drops_the_oldest_beyond_capacity() {
    let mut h: Vec<i64> = Vec::new();
    for i in 0..5 {
        record(&mut h, i, 3);
    }
    assert_eq!(h, vec![2, 3, 4]);
    let mut h: Vec<i64> = vec![1, 2];
    record(&mut h, 3, 3);
    assert_eq!(h, vec![1, 2, 3]);
}

#[test]
fn flash_fades_tick_by_tick() {
    let f = flash(Notice::HitWall);
    assert_eq!(f, Some(Flash { notice: Notice::HitWall, ticks: 60 }));
    assert_eq!(faded(f), Some(Flash { notice: Notice::HitWall, ticks: 59 }));
    assert_eq!(faded(Some(Flash { notice: Notice::BumpOff, ticks: 1 })), Some(Flash { notice: Notice::BumpOff, ticks: 0 }));
    assert_eq!(faded(Some(Flash { notice: Notice::BumpOff, ticks: 0 })), None);
    assert_eq!(faded(None), None);
    assert_eq!(Notice::TransitionCrossed { quality: 0 }.duration(), 90);
    assert_eq!(Notice::CopiedSection { section: 1 }.duration(), 45);
    assert_eq!(Notice::RampSelected { ramp: 1 }.duration(), 30);
}

#[test]
fn keys() {
    assert!(Key::Char('r').is_letter('r', 'R'));
    assert!(Key::Char('R').is_letter('r', 'R'));
    assert!(!Key::Char('x').is_letter('r', 'R'));
    assert!(!Key::Enter.is_letter('r', 'R'));
    assert_eq!(Key::Char('0').digit(), Some(0));
    assert_eq!(Key::Char('7').digit(), Some(7));
    assert_eq!(Key::Char('9').digit(), Some(9));
    assert_eq!(Key::Char('a').digit(), None);
    assert_eq!(Key::Char('/').digit(), None);
    assert_eq!(Key::Char(':').digit(), None);
    assert_eq!(Key::Up.digit(), None);
}
