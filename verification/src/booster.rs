//! The booster game: a rapid-cycling synchrotron that takes the beam from
//! injection through transition to extraction.
//!
//! This module holds the state of the game and its accounting: where the
//! beam is in the ring, what it has lost, which phase the cycle is in, what
//! the player has set, and what is recorded for display. Game and host take
//! turns. The game says which element is due, the host answers, and the game
//! accounts for the element. At the end of a turn the host answers again,
//! and the game decides on energy, optics, phase, transition and
//! extraction. What the host is asked for is what needs sines and cosines;
//! see `tracking` for the motion of the bunch.

use vstd::prelude::*;
use crate::bump::BumpConfig;
use crate::controls::{DisplayMode, InputMode, SimSpeed, MAX_ADJUST_SPEED};
use crate::corrector::{CorrectorPackage, CorrectorSelect};
use crate::energy::{bucket_height, gamma_ratio, slip_factor, EnergyState};
use crate::fixed::{at_least, magnitude, minus, plus, scale, times, LIMIT, ONE};
use crate::history::{record, recorded};
use crate::lattice::{
    build_lattice, is_ring, LatticeElement, ELEMENTS_PER_CELL, NUM_SECTIONS, };
use crate::loss::{accumulate, hits_wall, step_loss, MAX_LOSSES};
use crate::notice::{flash, Flash, Notice};
use crate::optics::{corrector_sums, spec_sums, OpticsState, PlaneOptics};
use crate::phase::{ramp_phase, GamePhase, TURNS_IN_CYCLE};
use crate::tracking::Bunch;

verus! {

/// How far one sub-step carries the beam through an element, in hundredths.
pub const PROGRESS_STEP: u32 = 35;

/// Number of samples that a display history keeps.
pub const MAX_HISTORY: usize = 60;

/// Number of cell crossings that the trail keeps.
pub const TRAIL_CAPACITY: usize = 72;

/// Number of turn-end positions that are kept.
pub const TURN_POSITIONS: usize = 20;

/// Rate at which a protruding edge sheds particles: this over `LOSS_DEN`.
pub const LOSS_NUM: i64 = 3;

pub const LOSS_DEN: i64 = 10;

/// Half a turn of RF phase, in millionths of a radian.
pub const HALF_TURN: i64 = 3_141_593;

/// The ratio of the Lorentz factor to its transition value, in millionths,
/// above which the crossing acts on the beam.
pub const CROSSING_FROM: i64 = 990_000;

/// The ratio below which the crossing acts on the beam.
pub const CROSSING_TO: i64 = 1_010_000;

/// The ratio above which the crossing is complete.
pub const CROSSED_FROM: i64 = 1_005_000;

/// The magnitude that both chromaticities should have at transition.
pub const TARGET_CHROMATICITY: i64 = 7_000_000;

/// RMS horizontal beam size at injection, in micrometres.
pub const INJECTION_SIGMA_X: i64 = 8_140_668;

/// RMS vertical beam size at injection, in micrometres.
pub const INJECTION_SIGMA_Y: i64 = 6_333_739;

/// The RF voltage that a new machine is set to, in millionths of a megavolt.
pub const INITIAL_RF_VOLTAGE: i64 = 500_000;

/// The adjustment step of a new machine.
pub const INITIAL_ADJUST_SPEED: i64 = 1_000;

/// The finest adjustment step.
pub const MIN_ADJUST_SPEED: i64 = 100;

/// One half.
pub const HALF: i64 = 500_000;

/// Points for having crossed transition.
pub const TRANSITION_BONUS: u32 = 500;

/// Points for extracting the beam.
pub const EXTRACTION_BONUS: u32 = 2000;

/// Where the beam is in transverse phase space and how wide it is, as the
/// loss model and the display see it: millimetres and milliradians, in
/// millionths.
#[derive(Clone, Copy, PartialEq, Eq, Structural, Debug)]
pub struct BeamSample {
    pub x: i64,
    pub xp: i64,
    pub y: i64,
    pub yp: i64,
    pub sigma_x: i64,
    pub sigma_y: i64,
}

/// What the host reports at the end of a turn, in millionths.
#[derive(Clone, Copy, PartialEq, Eq, Structural, Debug)]
pub struct TurnReport {
    /// The cosine of the ramp angle of the turn that begins: of half a turn
    /// times the share of the cycle that is done.
    pub cos_ramp: i64,
    /// The cell matrix in the horizontal plane, at the energy of that turn.
    pub x: PlaneOptics,
    /// The cell matrix in the vertical plane.
    pub y: PlaneOptics,
    /// RF phase of the beam relative to the synchronous phase, in radians.
    pub phi: i64,
    /// Energy deviation of the beam from the synchronous energy, in GeV.
    pub de: i64,
}

/// What crossing transition does to the beam, for the host to apply.
#[derive(Clone, Copy, PartialEq, Eq, Structural, Debug)]
pub struct TransitionKick {
    /// To be added to the RF phase of the beam.
    pub phase_kick: i64,
    /// To be added to the energy deviation of the beam.
    pub energy_kick: i64,
    /// The factor by which both beam sizes grow.
    pub blowup: i64,
}

/// What the game is waiting for from the host.
#[derive(Clone, Copy, PartialEq, Eq, Structural, Debug)]
pub enum Awaiting {
    /// Nothing: the next sub-step can begin.
    Nothing,
    /// The beam as it is behind the element that is due.
    Element,
    /// The report on the turn that has just been completed.
    Turn,
}

/// How the accounting for one element ended.
#[derive(Clone, Copy, PartialEq, Eq, Structural, Debug)]
pub enum ElementOutcome {
    /// No element was due; nothing was done.
    Unexpected,
    /// The beam left the aperture.
    HitWall,
    /// The accumulated losses reached the limit.
    LossesExceeded,
    /// The beam entered the next element of the same cell.
    Advanced,
    /// The beam passed the last element of a cell.
    CellDone,
    /// The beam passed the last element of the ring; a turn report is due.
    TurnDone,
}

/// Where the beam crossed into the next cell: the cell it left, and its
/// horizontal position and size there in display units.
pub type TrailPoint = (usize, i64, i64);

/// The game: the machine as the player has set it, where the beam is, what
/// it has lost, and what is recorded for display.
pub struct BoosterGame {
    pub lattice: Vec<LatticeElement>,
    /// The corrector package of every cell.
    pub correctors: Vec<CorrectorPackage>,
    /// The bunch as it is tracked.
    pub bunch: Bunch,
    /// The beam as it was last accounted for.
    pub sample: BeamSample,
    /// Energy and kinematics of the turn the beam is in.
    pub energy: EnergyState,
    pub optics: OpticsState,
    /// Total RF voltage, in millionths of a megavolt.
    pub rf_voltage: i64,
    /// Synchronous phase, in millionths of a degree.
    pub rf_phase: i64,
    /// Share of the injected beam that is still there, as a fraction of `ONE`.
    pub beam_intensity: i64,
    /// The cell the beam is in.
    pub beam_cell: usize,
    /// The element of that cell the beam is in.
    pub beam_element: usize,
    /// How far through that element the beam is, in hundredths.
    pub beam_progress: u32,
    pub beam_running: bool,
    pub beam_lost: bool,
    /// What the beam has shed so far. Only injection brings it back to zero.
    pub beam_losses: i64,
    pub awaiting: Awaiting,
    /// Whether a tick of the host has begun and not yet ended with a beam
    /// running.
    pub in_tick: bool,
    pub phase: GamePhase,
    pub tick: u64,
    pub paused: bool,
    pub turns_completed: u32,
    pub best_turns: u32,
    /// The turn of the acceleration cycle that the beam is in.
    pub ramp_turn: u32,
    pub transition_crossed: bool,
    /// The cell whose correctors are selected for editing.
    pub selected_cell: usize,
    pub selected_corrector: CorrectorSelect,
    /// The step by which one key press moves a corrector.
    pub adjust_speed: i64,
    pub bump: Option<BumpConfig>,
    pub trail: Vec<TrailPoint>,
    pub pos_history: Vec<i64>,
    pub size_history: Vec<i64>,
    pub y_pos_history: Vec<i64>,
    pub y_size_history: Vec<i64>,
    /// Where the beam was at the end of each turn, in display units.
    pub turn_positions: Vec<(i64, i64)>,
    pub phi_history: Vec<i64>,
    pub de_history: Vec<i64>,
    /// Horizontal position and angle at the end of each turn.
    pub x_xp_history: Vec<(i64, i64)>,
    /// Vertical position and angle at the end of each turn.
    pub y_yp_history: Vec<(i64, i64)>,
    pub display_mode: DisplayMode,
    pub sim_speed: SimSpeed,
    /// Relative trim of the main bend bus.
    pub bend_bus_trim: i64,
    /// Relative trim of the main quadrupole bus.
    pub quad_bus_trim: i64,
    pub message: Option<Flash>,
    pub input_mode: InputMode,
    /// What the player has typed of the coordinate being entered.
    pub input_buffer: Vec<char>,
    pub inject_x: i64,
    pub inject_y: i64,
}

/// A position or size in display units: half the physical value.
pub open spec fn spec_display(v: i64) -> i64 {
    scale(v, 1, 2)
}

/// A position or size in display units.
#[verifier::when_used_as_spec(spec_display)]
pub fn display(v: i64) -> (r: i64)
    ensures
        r == spec_display(v),
{
    scale(v, 1, 2)
}

/// The share of the beam that survives a step in which `shed` was lost: all
/// of it if nothing was lost, else a thousandth less per unit of loss, and
/// never less than nothing.
pub open spec fn survival(shed: i64) -> i64 {
    if shed > 0 {
        at_least(minus(ONE, scale(shed, 1, 1000)), 0)
    } else {
        ONE
    }
}

/// How far the chromaticities are from where they should be at transition:
/// the sum, over both planes, of the distance of the magnitude from
/// `TARGET_CHROMATICITY`.
pub open spec fn spec_chromaticity_quality(chromaticity_x: i64, chromaticity_y: i64) -> i64 {
    plus(
        magnitude(minus(magnitude(chromaticity_x), TARGET_CHROMATICITY)),
        magnitude(minus(magnitude(chromaticity_y), TARGET_CHROMATICITY)),
    )
}

/// How far the chromaticities are from where they should be at transition.
#[verifier::when_used_as_spec(spec_chromaticity_quality)]
pub fn chromaticity_quality(chromaticity_x: i64, chromaticity_y: i64) -> (r: i64)
    ensures
        r == spec_chromaticity_quality(chromaticity_x, chromaticity_y),
        0 <= r <= LIMIT,
{
    plus(
        magnitude(minus(magnitude(chromaticity_x), TARGET_CHROMATICITY)),
        magnitude(minus(magnitude(chromaticity_y), TARGET_CHROMATICITY)),
    )
}

/// What a crossing with chromaticity quality `quality` does to the beam:
/// an oscillation of amplitude `0.5 + 0.3 * quality`, a tenth of it in phase
/// and a thousandth in energy, and a growth of both sizes by a twentieth of
/// `quality`.
pub open spec fn spec_transition_kick(quality: i64) -> TransitionKick {
    let amplitude = plus(HALF, scale(quality, 3, 10));
    TransitionKick {
        phase_kick: scale(amplitude, 1, 10),
        energy_kick: scale(amplitude, 1, 1000),
        blowup: plus(ONE, scale(quality, 1, 20)),
    }
}

/// What a crossing with chromaticity quality `quality` does to the beam.
#[verifier::when_used_as_spec(spec_transition_kick)]
pub fn transition_kick(quality: i64) -> (r: TransitionKick)
    ensures
        r == spec_transition_kick(quality),
{
    let amplitude = plus(HALF, scale(quality, 3, 10));
    TransitionKick {
        phase_kick: scale(amplitude, 1, 10),
        energy_kick: scale(amplitude, 1, 1000),
        blowup: plus(ONE, scale(quality, 1, 20)),
    }
}

/// The share of the beam that survives a crossing with chromaticity quality
/// `quality`: a hundredth less per unit, but at least half.
pub open spec fn crossing_survival(quality: i64) -> i64 {
    at_least(minus(ONE, scale(quality, 1, 100)), HALF)
}

/// Whether a beam at RF phase `phi` and energy deviation `de` has left an
/// RF bucket of half-height `bucket`: its energy deviation exceeds three
/// bucket heights, or its phase half a turn.
pub open spec fn spec_escaped_bucket(phi: i64, de: i64, bucket: i64) -> bool {
    magnitude(de) > scale(bucket, 3, 1) || magnitude(phi) > HALF_TURN
}

/// Whether a beam at RF phase `phi` and energy deviation `de` has left an
/// RF bucket of half-height `bucket`.
#[verifier::when_used_as_spec(spec_escaped_bucket)]
pub fn escaped_bucket(phi: i64, de: i64, bucket: i64) -> (r: bool)
    ensures
        r == spec_escaped_bucket(phi, de, bucket),
{
    magnitude(de) > scale(bucket, 3, 1) || magnitude(phi) > HALF_TURN
}

/// A share of a share is a share: the product of two fractions of `ONE` is
/// a fraction of `ONE`.
pub proof fn lemma_share_of_share(a: i64, b: i64)
    requires
        0 <= a <= ONE,
        0 <= b <= ONE,
    ensures
        0 <= times(a, b) <= a,
{
    assert(0 <= a * b <= a * ONE) by (nonlinear_arith)
        requires
            0 <= a,
            0 <= b <= ONE,
    ;
    assert((a * b) / (ONE as int) <= a) by (nonlinear_arith)
        requires
            0 <= a * b <= a * ONE,
    ;
    assert((a * b) / (ONE as int) >= 0) by (nonlinear_arith)
        requires
            0 <= a * b,
    ;
}

fn depleted(intensity: i64, shed: i64) -> (r: i64)
    requires
        0 <= intensity <= ONE,
    ensures
        r == times(intensity, survival(shed)),
        0 <= r <= intensity,
{
    let share = if shed > 0 {
        at_least(minus(ONE, scale(shed, 1, 1000)), 0)
    } else {
        ONE
    };
    proof {
        if shed > 0 {
            assert(shed * 1 / 1000 >= 0);
        }
        lemma_share_of_share(intensity, share);
    }
    times(intensity, share)
}

fn crossed(intensity: i64, quality: i64) -> (r: i64)
    requires
        0 <= intensity <= ONE,
        0 <= quality,
    ensures
        r == times(intensity, crossing_survival(quality)),
        0 <= r <= intensity,
{
    let share = at_least(minus(ONE, scale(quality, 1, 100)), HALF);
    proof {
        assert(quality * 1 / 100 >= 0);
        lemma_share_of_share(intensity, share);
    }
    times(intensity, share)
}

impl BoosterGame {
    /// What every method keeps true of the game.
    pub open spec fn wf(&self) -> bool {
        &&& is_ring(self.lattice@)
        &&& self.correctors@.len() == NUM_SECTIONS
        &&& self.beam_cell < NUM_SECTIONS
        &&& self.beam_element < ELEMENTS_PER_CELL
        &&& self.beam_progress < 100
        &&& 0 <= self.beam_losses <= LIMIT
        &&& 0 <= self.beam_intensity <= ONE
        &&& self.ramp_turn <= TURNS_IN_CYCLE
        &&& self.turns_completed == self.ramp_turn
        &&& self.turns_completed <= self.best_turns
        &&& (self.ramp_turn >= TURNS_IN_CYCLE ==> self.phase == GamePhase::Extraction
            || self.phase == GamePhase::Lost || self.awaiting == Awaiting::Turn)
        &&& (!self.beam_running && !self.beam_lost && self.phase != GamePhase::Extraction
            ==> self.ramp_turn == 0)
        &&& (self.beam_lost <==> self.phase == GamePhase::Lost)
        &&& (self.awaiting != Awaiting::Nothing ==> self.beam_running && !self.beam_lost
            && self.phase != GamePhase::Extraction)
        &&& self.selected_cell < NUM_SECTIONS
        &&& MIN_ADJUST_SPEED <= self.adjust_speed <= MAX_ADJUST_SPEED
        &&& match self.bump {
            Some(b) => b.wf(),
            None => true,
        }
        &&& self.trail@.len() <= TRAIL_CAPACITY
        &&& self.turn_positions@.len() <= TURN_POSITIONS
        &&& self.pos_history@.len() <= MAX_HISTORY
        &&& self.size_history@.len() <= MAX_HISTORY
        &&& self.y_pos_history@.len() <= MAX_HISTORY
        &&& self.y_size_history@.len() <= MAX_HISTORY
        &&& self.phi_history@.len() <= MAX_HISTORY
        &&& self.de_history@.len() <= MAX_HISTORY
        &&& self.x_xp_history@.len() <= MAX_HISTORY
        &&& self.y_yp_history@.len() <= MAX_HISTORY
    }

    /// Whether nothing is recorded for display.
    pub open spec fn nothing_recorded(&self) -> bool {
        &&& self.trail@.len() == 0
        &&& self.pos_history@.len() == 0
        &&& self.size_history@.len() == 0
        &&& self.y_pos_history@.len() == 0
        &&& self.y_size_history@.len() == 0
        &&& self.phi_history@.len() == 0
        &&& self.de_history@.len() == 0
        &&& self.x_xp_history@.len() == 0
        &&& self.y_yp_history@.len() == 0
    }

    /// A machine that has just been set up: every corrector off, no beam,
    /// nothing recorded, waiting for the player.
    pub open spec fn is_fresh(&self) -> bool {
        &&& self.wf()
        &&& forall|i: int|
            0 <= i < NUM_SECTIONS ==> #[trigger] self.correctors@[i] == (CorrectorPackage {
                h_trim: 0,
                v_trim: 0,
                trim_quad: 0,
                skew_quad: 0,
                sext_a: 0,
                sext_b: 0,
            })
        &&& self.sample == (BeamSample {
            x: 0,
            xp: 0,
            y: 0,
            yp: 0,
            sigma_x: INJECTION_SIGMA_X,
            sigma_y: INJECTION_SIGMA_Y,
        })
        &&& self.bunch == Bunch::spec_fresh()
        &&& self.energy == EnergyState::spec_at(0, ONE)
        &&& self.optics == OpticsState::spec_bare()
        &&& self.rf_voltage == INITIAL_RF_VOLTAGE
        &&& self.rf_phase == 0
        &&& self.beam_intensity == ONE
        &&& self.beam_cell == 0
        &&& self.beam_element == 0
        &&& self.beam_progress == 0
        &&& !self.beam_running
        &&& !self.beam_lost
        &&& self.beam_losses == 0
        &&& self.awaiting == Awaiting::Nothing
        &&& !self.in_tick
        &&& self.phase == GamePhase::Setup
        &&& self.tick == 0
        &&& !self.paused
        &&& self.turns_completed == 0
        &&& self.best_turns == 0
        &&& self.ramp_turn == 0
        &&& !self.transition_crossed
        &&& self.selected_cell == 0
        &&& self.selected_corrector == CorrectorSelect::HTrim
        &&& self.adjust_speed == INITIAL_ADJUST_SPEED
        &&& self.bump is None
        &&& self.nothing_recorded()
        &&& self.turn_positions@.len() == 0
        &&& self.display_mode == DisplayMode::Orbit
        &&& self.sim_speed == SimSpeed::Slow
        &&& self.bend_bus_trim == 0
        &&& self.quad_bus_trim == 0
        &&& self.message is None
        &&& self.input_mode == InputMode::Idle
        &&& self.input_buffer@.len() == 0
        &&& self.inject_x == 0
        &&& self.inject_y == 0
    }

    /// A machine that has just been set up.
    #[verifier::rlimit(50)]
    pub fn new() -> (game: BoosterGame)
        ensures
            game.is_fresh(),
    {
        let mut correctors: Vec<CorrectorPackage> = Vec::new();
        let mut i: usize = 0;
        while i < NUM_SECTIONS
            invariant
                i <= NUM_SECTIONS,
                correctors@.len() == i,
                forall|k: int|
                    0 <= k < i ==> #[trigger] correctors@[k] == (CorrectorPackage {
                        h_trim: 0,
                        v_trim: 0,
                        trim_quad: 0,
                        skew_quad: 0,
                        sext_a: 0,
                        sext_b: 0,
                    }),
            decreases NUM_SECTIONS - i,
        {
            correctors.push(CorrectorPackage::new());
            i += 1;
        }
        BoosterGame {
            lattice: build_lattice(),
            correctors,
            sample: BeamSample {
                x: 0,
                xp: 0,
                y: 0,
                yp: 0,
                sigma_x: INJECTION_SIGMA_X,
                sigma_y: INJECTION_SIGMA_Y,
            },
            bunch: Bunch::fresh(),
            energy: EnergyState::injection(),
            optics: OpticsState::bare(),
            rf_voltage: INITIAL_RF_VOLTAGE,
            rf_phase: 0,
            beam_intensity: ONE,
            beam_cell: 0,
            beam_element: 0,
            beam_progress: 0,
            beam_running: false,
            beam_lost: false,
            beam_losses: 0,
            awaiting: Awaiting::Nothing,
            in_tick: false,
            phase: GamePhase::Setup,
            tick: 0,
            paused: false,
            turns_completed: 0,
            best_turns: 0,
            ramp_turn: 0,
            transition_crossed: false,
            selected_cell: 0,
            selected_corrector: CorrectorSelect::HTrim,
            adjust_speed: INITIAL_ADJUST_SPEED,
            bump: None,
            trail: Vec::new(),
            pos_history: Vec::new(),
            size_history: Vec::new(),
            y_pos_history: Vec::new(),
            y_size_history: Vec::new(),
            turn_positions: Vec::new(),
            phi_history: Vec::new(),
            de_history: Vec::new(),
            x_xp_history: Vec::new(),
            y_yp_history: Vec::new(),
            display_mode: DisplayMode::Orbit,
            sim_speed: SimSpeed::Slow,
            bend_bus_trim: 0,
            quad_bus_trim: 0,
            message: None,
            input_mode: InputMode::Idle,
            input_buffer: Vec::new(),
            inject_x: 0,
            inject_y: 0,
        }
    }

    /// Whether a sub-step can begin: a beam is running, the cycle has not
    /// ended, and the host owes nothing.
    pub open spec fn spec_can_step(&self) -> bool {
        self.beam_running && !self.beam_lost && self.phase != GamePhase::Extraction
            && self.awaiting == Awaiting::Nothing
    }

    /// Whether a sub-step can begin.
    #[verifier::when_used_as_spec(spec_can_step)]
    pub fn can_step(&self) -> (r: bool)
        ensures
            r == self.spec_can_step(),
    {
        self.beam_running && !self.beam_lost && !matches!(self.phase, GamePhase::Extraction)
            && matches!(self.awaiting, Awaiting::Nothing)
    }

    /// Whether the sub-step that begins now completes an element.
    pub open spec fn element_due(&self) -> bool {
        self.spec_can_step() && self.beam_progress + PROGRESS_STEP >= 100
    }

    /// The element that the beam is in.
    pub open spec fn current_element(&self) -> LatticeElement {
        self.lattice@[self.beam_cell * ELEMENTS_PER_CELL + self.beam_element]
    }

    /// Whether `after` is the game after a sub-step began.
    ///
    /// A sub-step that cannot begin changes nothing. Two sub-steps out of
    /// three only move the beam on within its element. The third completes
    /// the element: the game then waits for the beam behind it.
    pub open spec fn begins_to(&self, after: &BoosterGame) -> bool {
        if !self.spec_can_step() {
            *after == *self
        } else if self.element_due() {
            *after == (BoosterGame { beam_progress: 0, awaiting: Awaiting::Element, ..*self })
        } else {
            *after == (BoosterGame {
                beam_progress: (self.beam_progress + PROGRESS_STEP) as u32,
                ..*self
            })
        }
    }

    /// Begins a sub-step. Returns the element through which the host is to
    /// carry the beam, if this sub-step completes one.
    pub fn begin_step(&mut self) -> (due: Option<LatticeElement>)
        requires
            old(self).wf(),
        ensures
            final(self).wf(),
            old(self).begins_to(final(self)),
            due == if old(self).element_due() {
                Some(old(self).current_element())
            } else {
                None
            },
            due is Some ==> due->0.cell == old(self).beam_cell && due->0.index == old(self).beam_element,
    {
        if !self.can_step() {
            return None;
        }
        self.beam_progress += PROGRESS_STEP;
        if self.beam_progress < 100 {
            return None;
        }
        self.beam_progress = 0;
        self.awaiting = Awaiting::Element;
        let index = self.beam_cell * ELEMENTS_PER_CELL + self.beam_element;
        assert(self.lattice@[index as int] == crate::lattice::ring_element(index as int));
        Some(self.lattice[index])
    }

    /// What the beam sheds behind an element where the host found it at
    /// `sample`.
    pub open spec fn shed_at(sample: BeamSample) -> i64 {
        step_loss(
            display(sample.x),
            display(sample.sigma_x),
            display(sample.y),
            display(sample.sigma_y),
            LOSS_NUM,
            LOSS_DEN,
        )
    }

    /// How the accounting for the element that is due ends, if the host
    /// found the beam at `sample` behind it. The aperture is checked before
    /// the accumulated losses.
    pub open spec fn element_result(&self, sample: BeamSample) -> ElementOutcome {
        if self.awaiting != Awaiting::Element {
            ElementOutcome::Unexpected
        } else if hits_wall(display(sample.x), display(sample.y)) {
            ElementOutcome::HitWall
        } else if accumulate(self.beam_losses, Self::shed_at(sample)) >= MAX_LOSSES {
            ElementOutcome::LossesExceeded
        } else if self.beam_element + 1 < ELEMENTS_PER_CELL {
            ElementOutcome::Advanced
        } else if self.beam_cell + 1 < NUM_SECTIONS {
            ElementOutcome::CellDone
        } else {
            ElementOutcome::TurnDone
        }
    }

    /// Whether `after` is the game after the accounting for the element that
    /// was due, behind which the host found the beam at `sample`.
    ///
    /// A beam outside the aperture is lost at once. Otherwise what its edges
    /// shed beyond the loss zone is added to the losses and taken from the
    /// intensity, and the beam is lost if the losses have reached the limit.
    /// Otherwise the beam enters the next element. Leaving a cell adds to the
    /// trail. Leaving the last cell completes a turn: the turn is counted
    /// and recorded, and the game waits for the report on it.
    pub open spec fn element_finishes_to(&self, sample: BeamSample, after: &BoosterGame) -> bool {
        let shed = Self::shed_at(sample);
        let losses = accumulate(self.beam_losses, shed);
        let intensity = times(self.beam_intensity, survival(shed));
        let crossing = (self.beam_cell, display(sample.x), display(sample.sigma_x));
        match self.element_result(sample) {
            ElementOutcome::Unexpected => *after == *self,
            ElementOutcome::HitWall => *after == (BoosterGame {
                sample,
                beam_lost: true,
                phase: GamePhase::Lost,
                awaiting: Awaiting::Nothing,
                message: flash(Notice::HitWall),
                ..*self
            }),
            ElementOutcome::LossesExceeded => *after == (BoosterGame {
                sample,
                beam_losses: losses,
                beam_intensity: intensity,
                beam_lost: true,
                phase: GamePhase::Lost,
                awaiting: Awaiting::Nothing,
                message: flash(Notice::LossesExceeded),
                ..*self
            }),
            ElementOutcome::Advanced => *after == (BoosterGame {
                sample,
                beam_losses: losses,
                beam_intensity: intensity,
                beam_element: (self.beam_element + 1) as usize,
                awaiting: Awaiting::Nothing,
                ..*self
            }),
            ElementOutcome::CellDone => {
                &&& after.trail@ == recorded(self.trail@, crossing, TRAIL_CAPACITY as int)
                &&& *after == (BoosterGame {
                    sample,
                    beam_losses: losses,
                    beam_intensity: intensity,
                    beam_element: 0,
                    beam_cell: (self.beam_cell + 1) as usize,
                    awaiting: Awaiting::Nothing,
                    trail: after.trail,
                    ..*self
                })
            },
            ElementOutcome::TurnDone => {
                &&& after.trail@ == recorded(self.trail@, crossing, TRAIL_CAPACITY as int)
                &&& after.turn_positions@ == recorded(
                    self.turn_positions@,
                    (display(sample.x), display(sample.y)),
                    TURN_POSITIONS as int,
                )
                &&& after.x_xp_history@ == recorded(
                    self.x_xp_history@,
                    (sample.x, sample.xp),
                    MAX_HISTORY as int,
                )
                &&& after.y_yp_history@ == recorded(
                    self.y_yp_history@,
                    (sample.y, sample.yp),
                    MAX_HISTORY as int,
                )
                &&& *after == (BoosterGame {
                    sample,
                    beam_losses: losses,
                    beam_intensity: intensity,
                    beam_element: 0,
                    beam_cell: 0,
                    turns_completed: (self.turns_completed + 1) as u32,
                    ramp_turn: (self.ramp_turn + 1) as u32,
                    best_turns: if self.turns_completed + 1 > self.best_turns {
                        (self.turns_completed + 1) as u32
                    } else {
                        self.best_turns
                    },
                    awaiting: Awaiting::Turn,
                    trail: after.trail,
                    turn_positions: after.turn_positions,
                    x_xp_history: after.x_xp_history,
                    y_yp_history: after.y_yp_history,
                    ..*self
                })
            },
        }
    }

    /// Accounts for the element that was due, behind which the host found
    /// the beam at `sample`, and says how that ended.
    #[verifier::rlimit(50)]
    pub fn finish_element(&mut self, sample: BeamSample) -> (r: ElementOutcome)
        requires
            old(self).wf(),
        ensures
            final(self).wf(),
            r == old(self).element_result(sample),
            old(self).element_finishes_to(sample, final(self)),
            old(self).beam_losses <= final(self).beam_losses,
            final(self).beam_intensity <= old(self).beam_intensity,
    {
        if !matches!(self.awaiting, Awaiting::Element) {
            return ElementOutcome::Unexpected;
        }
        self.sample = sample;
        let display_x = display(sample.x);
        let display_y = display(sample.y);
        let display_sx = display(sample.sigma_x);
        let display_sy = display(sample.sigma_y);
        if hits_wall(display_x, display_y) {
            self.beam_lost = true;
            self.phase = GamePhase::Lost;
            self.awaiting = Awaiting::Nothing;
            self.message = flash(Notice::HitWall);
            return ElementOutcome::HitWall;
        }
        let shed = step_loss(display_x, display_sx, display_y, display_sy, LOSS_NUM, LOSS_DEN);
        self.beam_losses = accumulate(self.beam_losses, shed);
        self.beam_intensity = depleted(self.beam_intensity, shed);
        if self.beam_losses >= MAX_LOSSES {
            self.beam_lost = true;
            self.phase = GamePhase::Lost;
            self.awaiting = Awaiting::Nothing;
            self.message = flash(Notice::LossesExceeded);
            return ElementOutcome::LossesExceeded;
        }
        self.awaiting = Awaiting::Nothing;
        self.beam_element += 1;
        if self.beam_element < ELEMENTS_PER_CELL {
            return ElementOutcome::Advanced;
        }
        self.beam_element = 0;
        record(&mut self.trail, (self.beam_cell, display_x, display_sx), TRAIL_CAPACITY);
        self.beam_cell += 1;
        if self.beam_cell < NUM_SECTIONS {
            return ElementOutcome::CellDone;
        }
        self.beam_cell = 0;
        self.turns_completed += 1;
        self.ramp_turn += 1;
        record(&mut self.turn_positions, (display_x, display_y), TURN_POSITIONS);
        record(&mut self.x_xp_history, (sample.x, sample.xp), MAX_HISTORY);
        record(&mut self.y_yp_history, (sample.y, sample.yp), MAX_HISTORY);
        if self.turns_completed > self.best_turns {
            self.best_turns = self.turns_completed;
        }
        self.awaiting = Awaiting::Turn;
        ElementOutcome::TurnDone
    }

    /// The optics after an update from what the host has found for the cell
    /// matrix, at the energy, with the correctors and for the beam that the
    /// game has now.
    pub open spec fn optics_after(&self, x: PlaneOptics, y: PlaneOptics) -> OpticsState {
        self.optics.spec_updated(
            x,
            y,
            slip_factor(self.energy.gamma),
            spec_sums(self.correctors@, self.correctors@.len() as int),
            self.beam_intensity,
            self.energy,
        )
    }

    /// Takes what the host has found for the cell matrix at the energy of
    /// the game and updates the optics. Changes nothing else.
    pub fn update_optics(&mut self, x: PlaneOptics, y: PlaneOptics)
        requires
            old(self).wf(),
        ensures
            final(self).wf(),
            *final(self) == (BoosterGame { optics: old(self).optics_after(x, y), ..*old(self) }),
    {
        let sums = corrector_sums(&self.correctors);
        self.optics =
        self.optics.updated(
            x,
            y,
            slip_factor(self.energy.gamma),
            sums,
            self.beam_intensity,
            self.energy,
        );
    }

    /// The energy state of the turn that begins with the report `report`.
    pub open spec fn turn_energy(&self, report: TurnReport) -> EnergyState {
        EnergyState::spec_at(self.ramp_turn, report.cos_ramp)
    }

    /// The optics of the turn that begins with the report `report`.
    pub open spec fn turn_optics(&self, report: TurnReport) -> OpticsState {
        (BoosterGame { energy: self.turn_energy(report), ..*self }).optics_after(report.x, report.y)
    }

    /// Whether the beam has left the RF bucket in the turn that begins with
    /// the report `report`.
    pub open spec fn turn_escapes(&self, report: TurnReport) -> bool {
        escaped_bucket(
            report.phi,
            report.de,
            bucket_height(self.turn_energy(report), self.rf_voltage),
        )
    }

    /// The Lorentz factor of the turn that begins with the report `report`,
    /// over its value at transition.
    pub open spec fn turn_ratio(&self, report: TurnReport) -> i64 {
        gamma_ratio(self.turn_energy(report).gamma)
    }

    /// How far the chromaticities of the turn that begins with the report
    /// `report` are from where they should be at transition.
    pub open spec fn turn_quality(&self, report: TurnReport) -> i64 {
        chromaticity_quality(
            self.turn_optics(report).chromaticity_x,
            self.turn_optics(report).chromaticity_y,
        )
    }

    /// Whether the crossing of transition acts on the beam in the turn that
    /// begins with the report `report`: the beam is still in the bucket, the
    /// crossing is not complete, and the Lorentz factor is within a hundredth
    /// of its transition value.
    pub open spec fn crossing_acts(&self, report: TurnReport) -> bool {
        !self.turn_escapes(report) && !self.transition_crossed && CROSSING_FROM < self.turn_ratio(
            report,
        ) < CROSSING_TO
    }

    /// What the host is to do to the beam after the turn reported in
    /// `report`.
    pub open spec fn turn_kick(&self, report: TurnReport) -> Option<TransitionKick> {
        if self.awaiting == Awaiting::Turn && self.crossing_acts(report) {
            Some(transition_kick(self.turn_quality(report)))
        } else {
            None
        }
    }

    /// The accumulated losses after the turn reported in `report`: two per
    /// unit of chromaticity quality more if the crossing acts.
    pub open spec fn losses_after_turn(&self, report: TurnReport) -> i64 {
        if self.crossing_acts(report) {
            plus(self.beam_losses, scale(self.turn_quality(report), 2, 1))
        } else {
            self.beam_losses
        }
    }

    /// The phase after the turn reported in `report`: lost if the beam has
    /// left the bucket, else extraction if the last turn of the cycle is
    /// done, else what the energy says.
    pub open spec fn phase_after_turn(&self, report: TurnReport) -> GamePhase {
        if self.turn_escapes(report) {
            GamePhase::Lost
        } else if self.ramp_turn >= TURNS_IN_CYCLE {
            GamePhase::Extraction
        } else {
            ramp_phase(self.turn_ratio(report), self.ramp_turn)
        }
    }

    /// Whether `after` is the game after the report on the turn that has
    /// just been completed.
    ///
    /// The energy follows the ramp and the optics are updated. The
    /// longitudinal state is recorded. A beam that has left the RF bucket is
    /// lost: nothing else happens to it. Otherwise the phase follows the
    /// energy. While the beam crosses transition, and until the crossing is
    /// complete, badly set chromaticities cost losses and intensity; the
    /// crossing is complete, once and for all, when the Lorentz factor is far
    /// enough past its transition value. When the last turn of the cycle is
    /// done the beam is extracted.
    pub open spec fn turn_finishes_to(&self, report: TurnReport, after: &BoosterGame) -> bool {
        if self.awaiting != Awaiting::Turn {
            *after == *self
        } else {
            let quality = self.turn_quality(report);
            let escapes = self.turn_escapes(report);
            let acts = self.crossing_acts(report);
            let completes = acts && self.turn_ratio(report) > CROSSED_FROM;
            let extracted = !escapes && self.ramp_turn >= TURNS_IN_CYCLE;
            &&& after.phi_history@ == recorded(self.phi_history@, report.phi, MAX_HISTORY as int)
            &&& after.de_history@ == recorded(self.de_history@, report.de, MAX_HISTORY as int)
            &&& *after == (BoosterGame {
                energy: self.turn_energy(report),
                optics: self.turn_optics(report),
                phase: self.phase_after_turn(report),
                beam_lost: escapes,
                beam_running: self.beam_running && !extracted,
                beam_losses: self.losses_after_turn(report),
                beam_intensity: if acts {
                    times(self.beam_intensity, crossing_survival(quality))
                } else {
                    self.beam_intensity
                },
                transition_crossed: self.transition_crossed || completes,
                message: if escapes {
                    flash(Notice::LeftBucket)
                } else if completes {
                    flash(Notice::TransitionCrossed { quality })
                } else {
                    self.message
                },
                awaiting: Awaiting::Nothing,
                phi_history: after.phi_history,
                de_history: after.de_history,
                ..*self
            })
        }
    }

    /// Takes the report on the turn that has just been completed. Returns
    /// what the host is to do to the beam if the crossing of transition acts
    /// on it. A beam that has left the RF bucket is lost, whatever else the
    /// turn would have brought.
    #[verifier::rlimit(50)]
    pub fn finish_turn(&mut self, report: TurnReport) -> (kick: Option<TransitionKick>)
        requires
            old(self).wf(),
        ensures
            final(self).wf(),
            kick == old(self).turn_kick(report),
            old(self).turn_finishes_to(report, final(self)),
            old(self).beam_losses <= final(self).beam_losses,
            final(self).beam_intensity <= old(self).beam_intensity,
            old(self).awaiting == Awaiting::Turn && old(self).turn_escapes(report) ==> {
                &&& final(self).beam_lost
                &&& final(self).phase == GamePhase::Lost
                &&& final(self).awaiting == Awaiting::Nothing
                &&& final(self).message == flash(Notice::LeftBucket)
                &&& final(self).beam_losses == old(self).beam_losses
                &&& kick is None
            },
            old(self).awaiting == Awaiting::Turn && !old(self).turn_escapes(report) && old(
                self,
            ).ramp_turn >= TURNS_IN_CYCLE ==> final(self).phase == GamePhase::Extraction,
            old(self).transition_crossed ==> final(self).transition_crossed,
    {
        if !matches!(self.awaiting, Awaiting::Turn) {
            return None;
        }
        self.enter_turn(report);
        record(&mut self.phi_history, report.phi, MAX_HISTORY);
        record(&mut self.de_history, report.de, MAX_HISTORY);
        self.awaiting = Awaiting::Nothing;
        let bucket = bucket_height(self.energy, self.rf_voltage);
        if escaped_bucket(report.phi, report.de, bucket) {
            self.beam_lost = true;
            self.phase = GamePhase::Lost;
            self.message = flash(Notice::LeftBucket);
            return None;
        }
        let ratio = gamma_ratio(self.energy.gamma);
        let quality = chromaticity_quality(self.optics.chromaticity_x, self.optics.chromaticity_y);
        let acts = !self.transition_crossed && CROSSING_FROM < ratio && ratio < CROSSING_TO;
        let completes = acts && ratio > CROSSED_FROM;
        let extracted = self.ramp_turn >= TURNS_IN_CYCLE;
        assert(quality * 2 / 1 >= 0);
        let losses = if acts {
            plus(self.beam_losses, scale(quality, 2, 1))
        } else {
            self.beam_losses
        };
        let intensity = if acts {
            crossed(self.beam_intensity, quality)
        } else {
            self.beam_intensity
        };
        self.beam_losses = losses;
        self.beam_intensity = intensity;
        self.transition_crossed = self.transition_crossed || completes;
        if completes {
            self.message = flash(Notice::TransitionCrossed { quality });
        }
        self.phase = if extracted {
            GamePhase::Extraction
        } else {
            ramp_phase(ratio, self.ramp_turn)
        };
        self.beam_running = self.beam_running && !extracted;
        if acts {
            Some(transition_kick(quality))
        } else {
            None
        }
    }

    fn enter_turn(&mut self, report: TurnReport)
        requires
            old(self).wf(),
        ensures
            final(self).wf(),
            *final(self) == (BoosterGame {
                energy: old(self).turn_energy(report),
                optics: old(self).turn_optics(report),
                ..*old(self)
            }),
    {
        self.energy = EnergyState::at(self.ramp_turn, report.cos_ramp);
        self.update_optics(report.x, report.y);
    }

    /// Whether the game has ended: the beam is extracted or lost.
    pub open spec fn spec_is_game_over(&self) -> bool {
        self.phase == GamePhase::Extraction || self.phase == GamePhase::Lost
    }

    /// Whether the game has ended: the beam is extracted or lost.
    #[verifier::when_used_as_spec(spec_is_game_over)]
    pub fn is_game_over(&self) -> (r: bool)
        ensures
            r == self.spec_is_game_over(),
    {
        self.phase.is_terminal()
    }

    /// The score: a point per thousandth of the beam that is left, a point
    /// per turn of the cycle, and the bonuses for crossing transition and
    /// for extraction.
    pub open spec fn spec_get_score(&self) -> u32 {
        (self.beam_intensity / 1000 + self.ramp_turn + (if self.transition_crossed {
            TRANSITION_BONUS as int
        } else {
            0
        }) + (if self.phase == GamePhase::Extraction {
            EXTRACTION_BONUS as int
        } else {
            0
        })) as u32
    }

    /// The score. A function of the state alone.
    #[verifier::when_used_as_spec(spec_get_score)]
    pub fn get_score(&self) -> (r: u32)
        requires
            self.wf(),
        ensures
            r == self.spec_get_score(),
            r == self.beam_intensity / 1000 + self.ramp_turn + (if self.transition_crossed {
                TRANSITION_BONUS as int
            } else {
                0
            }) + (if self.phase == GamePhase::Extraction {
                EXTRACTION_BONUS as int
            } else {
                0
            }),
    {
        let intensity_score = (self.beam_intensity / 1000) as u32;
        let turn_score = self.ramp_turn;
        let transition_bonus = if self.transition_crossed {
            TRANSITION_BONUS
        } else {
            0
        };
        let extraction_bonus = if matches!(self.phase, GamePhase::Extraction) {
            EXTRACTION_BONUS
        } else {
            0
        };
        intensity_score + turn_score + transition_bonus + extraction_bonus
    }

    /// How steady the beam has been over the recorded history, from 0 to a
    /// hundred times `ONE`.
    pub fn stability_score(&self) -> (r: i64)
        requires
            self.wf(),
        ensures
            r == crate::stability::spec_stability(
                self.pos_history@,
                self.size_history@,
                self.y_pos_history@,
                self.y_size_history@,
            ),
    {
        crate::stability::stability(
            &self.pos_history,
            &self.size_history,
            &self.y_pos_history,
            &self.y_size_history,
        )
    }
}

} // verus!
