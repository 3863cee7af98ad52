//! Playing the booster game: the tick of the host, and what each command of
//! the player does.

use vstd::prelude::*;
use crate::booster::{
    display, Awaiting, BeamSample, BoosterGame, ElementOutcome, TurnReport, INJECTION_SIGMA_X, INJECTION_SIGMA_Y, MAX_HISTORY, MIN_ADJUST_SPEED,
};
use crate::bump::{next_bump_mode, spec_next_bump_mode, BumpAxis, BumpConfig, TrimEdit};
use crate::controls::{coarser, finer, InputMode};
use crate::corrector::{CorrectorPackage, CorrectorSelect};
use crate::decimal::{is_digit, parse_decimal, spec_parse_decimal};
use crate::energy::EnergyState;
use crate::fixed::{at_least, at_most, minus, plus, scale, LIMIT, ONE};
use crate::history::{record, recorded};
use crate::input::Key;
use crate::lattice::NUM_SECTIONS;
use crate::notice::{faded, flash, Notice};
use crate::optics::OpticsState;
use crate::phase::{GamePhase, TURNS_IN_CYCLE};
use crate::tracking::Bunch;

verus! {

/// Every how many ticks the display histories take a sample.
pub const SAMPLE_EVERY: u64 = 3;

/// The most that the RF cavities give, in millionths of a megavolt.
pub const MAX_RF_VOLTAGE: i64 = 1_160_000;

/// By how much one key press changes the RF voltage.
pub const RF_VOLTAGE_STEP: i64 = 20_000;

/// Half a turn of RF phase, in millionths of a degree.
pub const HALF_TURN_DEGREES: i64 = 180_000_000;

/// The most that the quadrupole bus can be trimmed by, either way.
pub const MAX_QUAD_BUS_TRIM: i64 = 200_000;

/// The most that the bend bus can be trimmed by, either way.
pub const MAX_BEND_BUS_TRIM: i64 = 100_000;

/// What the player can ask of the game.
#[derive(Clone, Copy, PartialEq, Eq, Structural, Debug)]
pub enum BoosterCommand {
    /// Start over, keeping the machine as the player has set it.
    Reset,
    /// Pause, or go on.
    TogglePause,
    /// Inject the beam on the axis.
    Inject,
    /// Begin typing the coordinates of an injection.
    EnterCoordinates,
    /// Select the next cell.
    NextCell,
    /// Select the cell before.
    PrevCell,
    /// Select the corrector before the selected one.
    SelectPrevious,
    /// Select the corrector after the selected one.
    SelectNext,
    /// Edit the trims of the cells that the bump spans.
    EditBump { horizontal: bool, vertical: bool, edit: TrimEdit },
    /// Move the bump by one cell.
    ShiftBump { forward: bool },
    /// Move the selected corrector of the selected cell by one step.
    AdjustSelected { up: bool },
    /// Change the RF voltage by one step.
    RfVoltage { up: bool },
    /// Show the next plot.
    NextDisplay,
    /// Double the adjustment step.
    Coarser,
    /// Halve the adjustment step.
    Finer,
    /// Copy the correctors of the selected cell to all others.
    CopyCorrectors,
    /// Switch the selected corrector of the selected cell off.
    ZeroSelected,
    /// Mirror the RF phase about a quarter turn.
    FlipRfPhase,
    /// Trim the quadrupole bus by one step.
    QuadBus { up: bool },
    /// Trim the bend bus by one step.
    BendBus { up: bool },
    /// Go to the next bump mode: off, 3, 4, 5 cells, off.
    CycleBump,
    /// Go to the next simulation speed.
    NextSpeed,
    /// Add a character to the coordinate being typed.
    Type { c: char },
    /// Remove the last character of the coordinate being typed.
    Erase,
    /// Abandon the typing of coordinates.
    Cancel,
    /// Finish the coordinate being typed.
    Submit,
}

/// What the host has to do after a command.
#[derive(Clone, Copy, PartialEq, Eq, Structural, Debug)]
pub enum Effect {
    /// Nothing.
    Nothing,
    /// Start a new beam where the game's sample says, at injection energy.
    Injected,
    /// Set up its own state anew.
    Restarted,
}

/// A corrector package after an edit of its trims through a bump that acts
/// on its cell with coefficient `coeff`: each trim that is being edited
/// goes up or down by `speed` times the coefficient, or to zero.
pub open spec fn spec_bump_edited(
    package: CorrectorPackage,
    coeff: i64,
    speed: i64,
    horizontal: bool,
    vertical: bool,
    edit: TrimEdit,
) -> CorrectorPackage {
    let kick = scale(speed, coeff, 1);
    CorrectorPackage {
        h_trim: if !horizontal {
            package.h_trim
        } else {
            match edit {
                TrimEdit::Raise => plus(package.h_trim, kick),
                TrimEdit::Lower => minus(package.h_trim, kick),
                TrimEdit::Zero => 0,
            }
        },
        v_trim: if !vertical {
            package.v_trim
        } else {
            match edit {
                TrimEdit::Raise => plus(package.v_trim, kick),
                TrimEdit::Lower => minus(package.v_trim, kick),
                TrimEdit::Zero => 0,
            }
        },
        ..package
    }
}

/// A corrector package after an edit of its trims through a bump.
#[verifier::when_used_as_spec(spec_bump_edited)]
pub fn bump_edited(
    package: CorrectorPackage,
    coeff: i64,
    speed: i64,
    horizontal: bool,
    vertical: bool,
    edit: TrimEdit,
) -> (r: CorrectorPackage)
    ensures
        r == spec_bump_edited(package, coeff, speed, horizontal, vertical, edit),
{
    let kick = scale(speed, coeff, 1);
    let mut r = package;
    if horizontal {
        r.h_trim = match edit {
            TrimEdit::Raise => plus(package.h_trim, kick),
            TrimEdit::Lower => minus(package.h_trim, kick),
            TrimEdit::Zero => 0,
        };
    }
    if vertical {
        r.v_trim = match edit {
            TrimEdit::Raise => plus(package.v_trim, kick),
            TrimEdit::Lower => minus(package.v_trim, kick),
            TrimEdit::Zero => 0,
        };
    }
    r
}

/// Whether `c` can be part of a coordinate.
pub open spec fn spec_is_coordinate_char(c: char) -> bool {
    is_digit(c) || c == '.' || c == '-' || c == '+'
}

/// Whether `c` can be part of a coordinate.
#[verifier::when_used_as_spec(spec_is_coordinate_char)]
pub fn is_coordinate_char(c: char) -> (r: bool)
    ensures
        r == spec_is_coordinate_char(c),
{
    ('0' <= c && c <= '9') || c == '.' || c == '-' || c == '+'
}

impl BoosterGame {
    /// How many sub-steps the tick that begins now is to run: none if the
    /// game is paused or over or no beam is running, else what the
    /// simulation speed says.
    pub open spec fn steps_due(&self) -> u32 {
        if self.ticks_beam() {
            self.sim_speed.steps_per_tick()
        } else {
            0
        }
    }

    /// Whether the tick that begins now moves the beam.
    pub open spec fn ticks_beam(&self) -> bool {
        !self.paused && !self.beam_lost && self.phase != GamePhase::Extraction && self.beam_running
    }

    /// Whether `after` is the game after a tick of the host began: the flash
    /// has faded, and unless the game is paused or over the tick is
    /// counted.
    pub open spec fn tick_begins_to(&self, after: &BoosterGame) -> bool {
        if self.paused || self.beam_lost || self.phase == GamePhase::Extraction {
            *after == (BoosterGame { message: faded(self.message), in_tick: false, ..*self })
        } else {
            *after == (BoosterGame {
                message: faded(self.message),
                tick: (self.tick + 1) as u64,
                in_tick: self.beam_running,
                ..*self
            })
        }
    }

    /// Begins a tick of the host and says how many sub-steps it is to run.
    /// The host runs them, stopping early when no further sub-step can
    /// begin, and then ends the tick.
    pub fn begin_tick(&mut self) -> (steps: u32)
        requires
            old(self).wf(),
            old(self).tick < u64::MAX,
        ensures
            final(self).wf(),
            old(self).tick_begins_to(final(self)),
            steps == old(self).steps_due(),
    {
        self.message = faded(self.message);
        self.in_tick = false;
        if self.paused || self.beam_lost || matches!(self.phase, GamePhase::Extraction) {
            return 0;
        }
        self.tick += 1;
        if !self.beam_running {
            return 0;
        }
        self.in_tick = true;
        self.sim_speed.steps_per_tick()
    }

    /// Whether `after` is the game after the tick of the host ended: if the
    /// tick moved the beam and is a third one, each display history has
    /// taken a sample of the beam, in display units.
    pub open spec fn tick_ends_to(&self, after: &BoosterGame) -> bool {
        if self.in_tick && self.tick % SAMPLE_EVERY == 0 {
            &&& after.pos_history@ == recorded(
                self.pos_history@,
                display(self.sample.x),
                MAX_HISTORY as int,
            )
            &&& after.size_history@ == recorded(
                self.size_history@,
                display(self.sample.sigma_x),
                MAX_HISTORY as int,
            )
            &&& after.y_pos_history@ == recorded(
                self.y_pos_history@,
                display(self.sample.y),
                MAX_HISTORY as int,
            )
            &&& after.y_size_history@ == recorded(
                self.y_size_history@,
                display(self.sample.sigma_y),
                MAX_HISTORY as int,
            )
            &&& *after == (BoosterGame {
                in_tick: false,
                pos_history: after.pos_history,
                size_history: after.size_history,
                y_pos_history: after.y_pos_history,
                y_size_history: after.y_size_history,
                ..*self
            })
        } else {
            *after == (BoosterGame { in_tick: false, ..*self })
        }
    }

    /// Ends a tick of the host.
    pub fn end_tick(&mut self)
        requires
            old(self).wf(),
        ensures
            final(self).wf(),
            old(self).tick_ends_to(final(self)),
            final(self).beam_losses == old(self).beam_losses,
    {
        if self.in_tick && self.tick % SAMPLE_EVERY == 0 {
            record(&mut self.pos_history, display(self.sample.x), MAX_HISTORY);
            record(&mut self.size_history, display(self.sample.sigma_x), MAX_HISTORY);
            record(&mut self.y_pos_history, display(self.sample.y), MAX_HISTORY);
            record(&mut self.y_size_history, display(self.sample.sigma_y), MAX_HISTORY);
        }
        self.in_tick = false;
    }

    /// Whether a beam can be injected: none is running and the game is not
    /// over.
    pub open spec fn can_inject(&self) -> bool {
        !self.beam_running && !self.beam_lost && self.phase != GamePhase::Extraction
    }

    /// Whether `after` is the game with a beam newly injected at `(x, y)`:
    /// at rest at the start of the ring and of the cycle, with the sizes of
    /// injection, whole, with no losses, transition ahead, and nothing
    /// recorded but the turn-end positions. A game in which no beam can be injected is left alone.
    pub open spec fn injects_to(&self, x: i64, y: i64, notice: Notice, after: &BoosterGame) -> bool {
        if !self.can_inject() {
            *after == *self
        } else {
            &&& after.nothing_recorded()
            &&& *after == (BoosterGame {
                beam_running: true,
                phase: GamePhase::Injection,
                bunch: Bunch::spec_injected_at(x, y),
                sample: BeamSample {
                    x,
                    xp: 0,
                    y,
                    yp: 0,
                    sigma_x: INJECTION_SIGMA_X,
                    sigma_y: INJECTION_SIGMA_Y,
                },
                beam_cell: 0,
                beam_element: 0,
                beam_progress: 0,
                beam_losses: 0,
                beam_intensity: ONE,
                ramp_turn: 0,
                transition_crossed: false,
                energy: EnergyState::spec_at(0, ONE),
                awaiting: Awaiting::Nothing,
                message: flash(notice),
                trail: after.trail,
                pos_history: after.pos_history,
                size_history: after.size_history,
                y_pos_history: after.y_pos_history,
                y_size_history: after.y_size_history,
                phi_history: after.phi_history,
                de_history: after.de_history,
                x_xp_history: after.x_xp_history,
                y_yp_history: after.y_yp_history,
                ..*self
            })
        }
    }

    /// Injects a beam at `(x, y)`, if one can be injected, and says whether
    /// it did.
    #[verifier::rlimit(50)]
    pub fn inject_at(&mut self, x: i64, y: i64, notice: Notice) -> (effect: Effect)
        requires
            old(self).wf(),
        ensures
            final(self).wf(),
            old(self).injects_to(x, y, notice, final(self)),
            effect == if old(self).can_inject() {
                Effect::Injected
            } else {
                Effect::Nothing
            },
            old(self).can_inject() ==> final(self).beam_losses == 0,
    {
        if self.beam_running || self.beam_lost || matches!(self.phase, GamePhase::Extraction) {
            return Effect::Nothing;
        }
        self.beam_running = true;
        self.phase = GamePhase::Injection;
        self.bunch = Bunch::injected_at(x, y);
        self.sample = BeamSample {
            x,
            xp: 0,
            y,
            yp: 0,
            sigma_x: INJECTION_SIGMA_X,
            sigma_y: INJECTION_SIGMA_Y,
        };
        self.beam_cell = 0;
        self.beam_element = 0;
        self.beam_progress = 0;
        self.beam_losses = 0;
        self.beam_intensity = ONE;
        self.ramp_turn = 0;
        self.transition_crossed = false;
        self.energy = EnergyState::injection();
        self.awaiting = Awaiting::Nothing;
        self.message = flash(notice);
        self.trail.clear();
        self.pos_history.clear();
        self.size_history.clear();
        self.y_pos_history.clear();
        self.y_size_history.clear();
        self.phi_history.clear();
        self.de_history.clear();
        self.x_xp_history.clear();
        self.y_yp_history.clear();
        Effect::Injected
    }

    /// Whether `after` is the game started over: as a machine that has just
    /// been set up, but for the best number of turns and for what the player
    /// has set: correctors, selection, adjustment step, bump, RF voltage and
    /// phase, bus trims, display and speed.
    pub open spec fn resets_to(&self, after: &BoosterGame) -> bool {
        &&& after.nothing_recorded()
        &&& after.turn_positions@.len() == 0
        &&& after.input_buffer@.len() == 0
        &&& *after == (BoosterGame {
            sample: BeamSample {
                x: 0,
                xp: 0,
                y: 0,
                yp: 0,
                sigma_x: INJECTION_SIGMA_X,
                sigma_y: INJECTION_SIGMA_Y,
            },
            bunch: Bunch::spec_fresh(),
            energy: EnergyState::spec_at(0, ONE),
            optics: OpticsState::spec_bare(),
            beam_intensity: ONE,
            beam_cell: 0,
            beam_element: 0,
            beam_progress: 0,
            beam_running: false,
            beam_lost: false,
            beam_losses: 0,
            awaiting: Awaiting::Nothing,
            in_tick: false,
            phase: GamePhase::Setup,
            tick: 0,
            paused: false,
            turns_completed: 0,
            ramp_turn: 0,
            transition_crossed: false,
            message: None,
            input_mode: InputMode::Idle,
            inject_x: 0,
            inject_y: 0,
            trail: after.trail,
            pos_history: after.pos_history,
            size_history: after.size_history,
            y_pos_history: after.y_pos_history,
            y_size_history: after.y_size_history,
            turn_positions: after.turn_positions,
            phi_history: after.phi_history,
            de_history: after.de_history,
            x_xp_history: after.x_xp_history,
            y_yp_history: after.y_yp_history,
            input_buffer: after.input_buffer,
            ..*self
        })
    }

    /// Starts over, keeping the machine as the player has set it.
    #[verifier::rlimit(50)]
    pub fn reset(&mut self)
        requires
            old(self).wf(),
        ensures
            final(self).wf(),
            old(self).resets_to(final(self)),
    {
        self.sample = BeamSample {
            x: 0,
            xp: 0,
            y: 0,
            yp: 0,
            sigma_x: INJECTION_SIGMA_X,
            sigma_y: INJECTION_SIGMA_Y,
        };
        self.bunch = Bunch::fresh();
        self.energy = EnergyState::injection();
        self.optics = OpticsState::bare();
        self.beam_intensity = ONE;
        self.beam_cell = 0;
        self.beam_element = 0;
        self.beam_progress = 0;
        self.beam_running = false;
        self.beam_lost = false;
        self.beam_losses = 0;
        self.awaiting = Awaiting::Nothing;
        self.in_tick = false;
        self.phase = GamePhase::Setup;
        self.tick = 0;
        self.paused = false;
        self.turns_completed = 0;
        self.ramp_turn = 0;
        self.transition_crossed = false;
        self.message = None;
        self.input_mode = InputMode::Idle;
        self.inject_x = 0;
        self.inject_y = 0;
        self.trail.clear();
        self.pos_history.clear();
        self.size_history.clear();
        self.y_pos_history.clear();
        self.y_size_history.clear();
        self.turn_positions.clear();
        self.phi_history.clear();
        self.de_history.clear();
        self.x_xp_history.clear();
        self.y_yp_history.clear();
        self.input_buffer.clear();
    }

    /// Whether `after` is the game after one corrector of cell `cell` was
    /// moved by `delta`. A cell that does not exist is left alone.
    pub open spec fn corrector_adjusts_to(
        &self,
        cell: usize,
        which: CorrectorSelect,
        delta: i64,
        after: &BoosterGame,
    ) -> bool {
        if cell < NUM_SECTIONS {
            &&& after.correctors@ == self.correctors@.update(
                cell as int,
                self.correctors@[cell as int].adjusted(which, delta),
            )
            &&& *after == (BoosterGame { correctors: after.correctors, ..*self })
        } else {
            *after == *self
        }
    }

    /// Moves one corrector of cell `cell` by `delta`.
    pub fn adjust_corrector(&mut self, cell: usize, which: CorrectorSelect, delta: i64)
        requires
            old(self).wf(),
        ensures
            final(self).wf(),
            old(self).corrector_adjusts_to(cell, which, delta, final(self)),
    {
        if cell >= NUM_SECTIONS {
            return;
        }
        let adjusted = self.correctors[cell].adjusted(which, delta);
        self.correctors[cell] = adjusted;
    }

    /// Whether `after` is the game after the correctors of the selected cell
    /// were copied to every cell.
    pub open spec fn correctors_copy_to(&self, after: &BoosterGame) -> bool {
        &&& after.correctors@.len() == NUM_SECTIONS
        &&& forall|i: int|
            0 <= i < NUM_SECTIONS ==> #[trigger] after.correctors@[i]
                == self.correctors@[self.selected_cell as int]
        &&& *after == (BoosterGame {
            correctors: after.correctors,
            message: flash(Notice::CopiedCorrectors { cell: self.selected_cell }),
            ..*self
        })
    }

    /// Copies the correctors of the selected cell to every other cell.
    pub fn copy_correctors_to_all(&mut self)
        requires
            old(self).wf(),
        ensures
            final(self).wf(),
            old(self).correctors_copy_to(final(self)),
    {
        let src = self.correctors[self.selected_cell];
        let mut i: usize = 0;
        while i < NUM_SECTIONS
            invariant
                i <= NUM_SECTIONS,
                old(self).wf(),
                src == old(self).correctors@[old(self).selected_cell as int],
                self.correctors@.len() == NUM_SECTIONS,
                forall|k: int| 0 <= k < i ==> #[trigger] self.correctors@[k] == src,
                forall|k: int|
                    i <= k < NUM_SECTIONS ==> #[trigger] self.correctors@[k] == old(self).correctors@[k],
                *self == (BoosterGame { correctors: self.correctors, ..*old(self) }),
            decreases NUM_SECTIONS - i,
        {
            if i != self.selected_cell {
                self.correctors[i] = src;
            }
            i += 1;
        }
        self.message = flash(Notice::CopiedCorrectors { cell: self.selected_cell });
    }

    /// Whether `after` is the game after the trims were edited through the
    /// bump.
    ///
    /// In every cell on which the bump acts, each trim that is being edited
    /// goes up or down by the adjustment step times the coefficient of the
    /// cell, or to zero. All other cells stay. Setting the trims to zero is
    /// announced. Without a bump nothing happens.
    pub open spec fn bump_edits_to(
        &self,
        horizontal: bool,
        vertical: bool,
        edit: TrimEdit,
        after: &BoosterGame,
    ) -> bool {
        match self.bump {
            None => *after == *self,
            Some(bump) => {
                &&& after.correctors@.len() == NUM_SECTIONS
                &&& forall|cell: int|
                    0 <= cell < NUM_SECTIONS ==> #[trigger] after.correctors@[cell] == (
                    match bump.coefficient_at(cell) {
                        Some(coeff) => bump_edited(
                            self.correctors@[cell],
                            coeff,
                            self.adjust_speed,
                            horizontal,
                            vertical,
                            edit,
                        ),
                        None => self.correctors@[cell],
                    })
                &&& *after == (BoosterGame {
                    correctors: after.correctors,
                    message: if edit == TrimEdit::Zero {
                        flash(Notice::ZeroedTrims)
                    } else {
                        self.message
                    },
                    ..*self
                })
            },
        }
    }

    /// Edits the trims of the cells that the bump spans, in the planes asked
    /// for.
    #[verifier::rlimit(50)]
    pub fn edit_bump(&mut self, horizontal: bool, vertical: bool, edit: TrimEdit)
        requires
            old(self).wf(),
        ensures
            final(self).wf(),
            old(self).bump_edits_to(horizontal, vertical, edit, final(self)),
    {
        let bump = match self.bump {
            Some(b) => b,
            None => {
                return;
            },
        };
        let sec_coeffs = bump.section_coefficients();
        let speed = self.adjust_speed;
        let mut i: usize = 0;
        while i < sec_coeffs.len()
            invariant
                i <= sec_coeffs@.len(),
                old(self).wf(),
                old(self).bump == Some(bump),
                speed == old(self).adjust_speed,
                bump.wf(),
                sec_coeffs@.len() == bump.size,
                forall|k: int|
                    0 <= k < sec_coeffs@.len() ==> (#[trigger] sec_coeffs@[k]).0 == bump.cell_of(k)
                        && sec_coeffs@[k].1 == bump.pattern()[k],
                self.correctors@.len() == NUM_SECTIONS,
                forall|cell: int|
                    0 <= cell < NUM_SECTIONS ==> #[trigger] self.correctors@[cell] == (
                    match bump.coefficient_at(cell) {
                        Some(coeff) => if bump.offset_of(cell) < i {
                            bump_edited(
                                old(self).correctors@[cell],
                                coeff,
                                speed,
                                horizontal,
                                vertical,
                                edit,
                            )
                        } else {
                            old(self).correctors@[cell]
                        },
                        None => old(self).correctors@[cell],
                    }),
                *self == (BoosterGame { correctors: self.correctors, ..*old(self) }),
            decreases sec_coeffs@.len() - i,
        {
            let (sec, coeff) = sec_coeffs[i];
            assert(sec == bump.cell_of(i as int) && coeff == bump.pattern()[i as int]);
            assert(bump.offset_of(sec as int) == i);
            assert(bump.coefficient_at(sec as int) == Some(coeff));
            let edited = bump_edited(self.correctors[sec], coeff, speed, horizontal, vertical, edit);
            self.correctors[sec] = edited;
            i += 1;
        }
        if edit == TrimEdit::Zero {
            self.message = flash(Notice::ZeroedTrims);
        }
    }

    /// The RF voltage one step up or down, within what the cavities give.
    pub open spec fn stepped_rf_voltage(&self, up: bool) -> i64 {
        if up {
            at_most(plus(self.rf_voltage, RF_VOLTAGE_STEP), MAX_RF_VOLTAGE)
        } else {
            at_least(minus(self.rf_voltage, RF_VOLTAGE_STEP), 0)
        }
    }

    /// A bus trim one adjustment step up or down, within `limit` either
    /// way.
    pub open spec fn stepped_bus_trim(&self, trim: i64, up: bool, limit: i64) -> i64 {
        if up {
            at_most(plus(trim, self.adjust_speed), limit)
        } else {
            at_least(minus(trim, self.adjust_speed), (-limit) as i64)
        }
    }

    fn bus_trim(&self, trim: i64, up: bool, limit: i64) -> (r: i64)
        requires
            0 <= limit <= ONE,
        ensures
            r == self.stepped_bus_trim(trim, up, limit),
    {
        if up {
            at_most(plus(trim, self.adjust_speed), limit)
        } else {
            at_least(minus(trim, self.adjust_speed), -limit)
        }
    }

    /// Whether `after` is the game after the coordinate being typed was
    /// finished.
    ///
    /// What was typed is read as a decimal number. If it is none, that is
    /// announced and the typing starts again. The first number is the
    /// horizontal coordinate, and the vertical one is typed next. The second
    /// is the vertical coordinate, and the beam is injected there.
    pub open spec fn submits_to(&self, after: &BoosterGame) -> bool {
        if self.input_mode == InputMode::Idle {
            *after == *self
        } else {
            match spec_parse_decimal(self.input_buffer@) {
                None => {
                    &&& after.input_buffer@.len() == 0
                    &&& *after == (BoosterGame {
                        input_buffer: after.input_buffer,
                        message: flash(
                            Notice::InvalidCoordinate {
                                axis: if self.input_mode == InputMode::InjectX {
                                    BumpAxis::X
                                } else {
                                    BumpAxis::Y
                                },
                            },
                        ),
                        ..*self
                    })
                },
                Some(value) => if self.input_mode == InputMode::InjectX {
                    &&& after.input_buffer@.len() == 0
                    &&& *after == (BoosterGame {
                        input_buffer: after.input_buffer,
                        inject_x: value,
                        input_mode: InputMode::InjectY,
                        ..*self
                    })
                } else {
                    exists|typed: BoosterGame|
                        {
                            &&& typed.input_buffer@.len() == 0
                            &&& typed == (BoosterGame {
                                input_buffer: typed.input_buffer,
                                inject_y: value,
                                input_mode: InputMode::Idle,
                                ..*self
                            })
                            &&& #[trigger] typed.injects_to(
                                self.inject_x,
                                value,
                                Notice::InjectedAt { x: self.inject_x, y: value },
                                after,
                            )
                        }
                },
            }
        }
    }

    /// What the host has to do after the coordinate being typed was
    /// finished.
    pub open spec fn submit_effect(&self) -> Effect {
        if self.input_mode == InputMode::InjectY && spec_parse_decimal(self.input_buffer@) is Some
            && self.can_inject() {
            Effect::Injected
        } else {
            Effect::Nothing
        }
    }

    /// Finishes the coordinate being typed.
    #[verifier::rlimit(50)]
    pub fn submit(&mut self) -> (effect: Effect)
        requires
            old(self).wf(),
        ensures
            final(self).wf(),
            old(self).submits_to(final(self)),
            effect == old(self).submit_effect(),
    {
        match self.input_mode {
            InputMode::Idle => Effect::Nothing,
            InputMode::InjectX => {
                match parse_decimal(&self.input_buffer) {
                    Some(value) => {
                        self.inject_x = value;
                        self.input_mode = InputMode::InjectY;
                        self.input_buffer.clear();
                    },
                    None => {
                        self.message = flash(Notice::InvalidCoordinate { axis: BumpAxis::X });
                        self.input_buffer.clear();
                    },
                }
                Effect::Nothing
            },
            InputMode::InjectY => {
                match parse_decimal(&self.input_buffer) {
                    Some(value) => {
                        self.inject_y = value;
                        self.input_mode = InputMode::Idle;
                        self.input_buffer.clear();
                        let ghost typed = *self;
                        let x = self.inject_x;
                        let effect = self.inject_at(x, value, Notice::InjectedAt { x, y: value });
                        assert(typed.injects_to(
                            x,
                            value,
                            Notice::InjectedAt { x, y: value },
                            self,
                        ));
                        effect
                    },
                    None => {
                        self.message = flash(Notice::InvalidCoordinate { axis: BumpAxis::Y });
                        self.input_buffer.clear();
                        Effect::Nothing
                    },
                }
            },
        }
    }

    /// Whether `after` is the game after the player's command `command`.
    pub open spec fn obeys_to(&self, command: BoosterCommand, after: &BoosterGame) -> bool {
        match command {
            BoosterCommand::Reset => self.resets_to(after),
            BoosterCommand::TogglePause => *after == (BoosterGame {
                paused: if self.beam_lost || self.phase == GamePhase::Extraction {
                    self.paused
                } else {
                    !self.paused
                },
                ..*self
            }),
            BoosterCommand::Inject => self.injects_to(0, 0, Notice::Injected, after),
            BoosterCommand::EnterCoordinates => if self.beam_running {
                *after == *self
            } else {
                &&& after.input_buffer@.len() == 0
                &&& *after == (BoosterGame {
                    input_mode: InputMode::InjectX,
                    input_buffer: after.input_buffer,
                    ..*self
                })
            },
            BoosterCommand::NextCell => *after == (BoosterGame {
                selected_cell: if self.bump is None {
                    ((self.selected_cell + 1) % (NUM_SECTIONS as int)) as usize
                } else {
                    self.selected_cell
                },
                ..*self
            }),
            BoosterCommand::PrevCell => *after == (BoosterGame {
                selected_cell: if self.bump is Some {
                    self.selected_cell
                } else if self.selected_cell == 0 {
                    (NUM_SECTIONS - 1) as usize
                } else {
                    (self.selected_cell - 1) as usize
                },
                ..*self
            }),
            BoosterCommand::SelectPrevious => *after == (BoosterGame {
                selected_corrector: self.selected_corrector.prev(),
                ..*self
            }),
            BoosterCommand::SelectNext => *after == (BoosterGame {
                selected_corrector: self.selected_corrector.next(),
                ..*self
            }),
            BoosterCommand::EditBump { horizontal, vertical, edit } => self.bump_edits_to(
                horizontal,
                vertical,
                edit,
                after,
            ),
            BoosterCommand::ShiftBump { forward } => *after == (BoosterGame {
                bump: match self.bump {
                    Some(b) => Some(
                        if forward {
                            b.shifted_forward()
                        } else {
                            b.shifted_back()
                        },
                    ),
                    None => None,
                },
                ..*self
            }),
            BoosterCommand::AdjustSelected { up } => self.corrector_adjusts_to(
                self.selected_cell,
                self.selected_corrector,
                if up {
                    self.adjust_speed
                } else {
                    (-self.adjust_speed) as i64
                },
                after,
            ),
            BoosterCommand::RfVoltage { up } => *after == (BoosterGame {
                rf_voltage: self.stepped_rf_voltage(up),
                message: flash(Notice::RfVoltage { megavolts: self.stepped_rf_voltage(up) }),
                ..*self
            }),
            BoosterCommand::NextDisplay => *after == (BoosterGame {
                display_mode: self.display_mode.next(),
                ..*self
            }),
            BoosterCommand::Coarser => *after == (BoosterGame {
                adjust_speed: coarser(self.adjust_speed),
                ..*self
            }),
            BoosterCommand::Finer => *after == (BoosterGame {
                adjust_speed: finer(self.adjust_speed, MIN_ADJUST_SPEED),
                ..*self
            }),
            BoosterCommand::CopyCorrectors => self.correctors_copy_to(after),
            BoosterCommand::ZeroSelected => {
                &&& after.correctors@ == self.correctors@.update(
                    self.selected_cell as int,
                    self.correctors@[self.selected_cell as int].with(self.selected_corrector, 0),
                )
                &&& *after == (BoosterGame { correctors: after.correctors, ..*self })
            },
            BoosterCommand::FlipRfPhase => *after == (BoosterGame {
                rf_phase: minus(HALF_TURN_DEGREES, self.rf_phase),
                message: flash(
                    Notice::RfPhase { degrees: minus(HALF_TURN_DEGREES, self.rf_phase) },
                ),
                ..*self
            }),
            BoosterCommand::QuadBus { up } => {
                let trim = self.stepped_bus_trim(self.quad_bus_trim, up, MAX_QUAD_BUS_TRIM);
                *after == (BoosterGame {
                    quad_bus_trim: trim,
                    message: flash(Notice::QuadBus { trim }),
                    ..*self
                })
            },
            BoosterCommand::BendBus { up } => {
                let trim = self.stepped_bus_trim(self.bend_bus_trim, up, MAX_BEND_BUS_TRIM);
                *after == (BoosterGame {
                    bend_bus_trim: trim,
                    message: flash(Notice::BendBus { trim }),
                    ..*self
                })
            },
            BoosterCommand::CycleBump => {
                let next = spec_next_bump_mode(self.bump, self.selected_cell);
                *after == (BoosterGame {
                    bump: next,
                    message: match next {
                        Some(b) => flash(Notice::BumpSelected { bump: b }),
                        None => flash(Notice::BumpOff),
                    },
                    ..*self
                })
            },
            BoosterCommand::NextSpeed => *after == (BoosterGame {
                sim_speed: self.sim_speed.next(),
                message: flash(Notice::SpeedSet { speed: self.sim_speed.next() }),
                ..*self
            }),
            BoosterCommand::Type { c } => if self.input_mode != InputMode::Idle
                && is_coordinate_char(c) {
                &&& after.input_buffer@ == self.input_buffer@.push(c)
                &&& *after == (BoosterGame { input_buffer: after.input_buffer, ..*self })
            } else {
                *after == *self
            },
            BoosterCommand::Erase => if self.input_mode != InputMode::Idle
                && self.input_buffer@.len() > 0 {
                &&& after.input_buffer@ == self.input_buffer@.drop_last()
                &&& *after == (BoosterGame { input_buffer: after.input_buffer, ..*self })
            } else {
                *after == *self
            },
            BoosterCommand::Cancel => if self.input_mode != InputMode::Idle {
                &&& after.input_buffer@.len() == 0
                &&& *after == (BoosterGame {
                    input_mode: InputMode::Idle,
                    input_buffer: after.input_buffer,
                    message: flash(Notice::InjectCancelled),
                    ..*self
                })
            } else {
                *after == *self
            },
            BoosterCommand::Submit => self.submits_to(after),
        }
    }

    /// What the host has to do after the player's command `command`.
    pub open spec fn command_effect(&self, command: BoosterCommand) -> Effect {
        match command {
            BoosterCommand::Reset => Effect::Restarted,
            BoosterCommand::Inject => if self.can_inject() {
                Effect::Injected
            } else {
                Effect::Nothing
            },
            BoosterCommand::Submit => self.submit_effect(),
            _ => Effect::Nothing,
        }
    }

    #[verifier::rlimit(50)]

    fn apply_navigation(&mut self, command: BoosterCommand)
        requires
            old(self).wf(),
            command == BoosterCommand::TogglePause || command == BoosterCommand::NextCell
                || command == BoosterCommand::PrevCell || command == BoosterCommand::SelectPrevious
                || command == BoosterCommand::SelectNext || command == BoosterCommand::NextDisplay
                || command == BoosterCommand::NextSpeed,
        ensures
            final(self).wf(),
            old(self).obeys_to(command, final(self)),
    {
        match command {
            BoosterCommand::TogglePause => {
                if !self.beam_lost && !matches!(self.phase, GamePhase::Extraction) {
                    self.paused = !self.paused;
                }
            },
            BoosterCommand::NextCell => {
                if self.bump.is_none() {
                    self.selected_cell = (self.selected_cell + 1) % NUM_SECTIONS;
                }
            },
            BoosterCommand::PrevCell => {
                if self.bump.is_none() {
                    self.selected_cell = if self.selected_cell == 0 {
                        NUM_SECTIONS - 1
                    } else {
                        self.selected_cell - 1
                    };
                }
            },
            BoosterCommand::SelectPrevious => {
                self.selected_corrector = self.selected_corrector.prev();
            },
            BoosterCommand::SelectNext => {
                self.selected_corrector = self.selected_corrector.next();
            },
            BoosterCommand::NextDisplay => {
                self.display_mode = self.display_mode.next();
            },
            _ => {
                self.sim_speed = self.sim_speed.next();
                self.message = flash(Notice::SpeedSet { speed: self.sim_speed });
            },
        }
    }

    #[verifier::rlimit(50)]

    fn apply_bump_mode(&mut self, command: BoosterCommand)
        requires
            old(self).wf(),
            command is ShiftBump || command == BoosterCommand::CycleBump || command
                == BoosterCommand::Coarser || command == BoosterCommand::Finer,
        ensures
            final(self).wf(),
            old(self).obeys_to(command, final(self)),
    {
        match command {
            BoosterCommand::ShiftBump { forward } => {
                match self.bump {
                    Some(b) => {
                        self.bump = Some(
                            if forward {
                                b.shifted_forward()
                            } else {
                                b.shifted_back()
                            },
                        );
                    },
                    None => {},
                }
            },
            BoosterCommand::CycleBump => {
                let next = next_bump_mode(self.bump, self.selected_cell);
                self.bump = next;
                self.message = match next {
                    Some(b) => flash(Notice::BumpSelected { bump: b }),
                    None => flash(Notice::BumpOff),
                };
            },
            BoosterCommand::Coarser => {
                self.adjust_speed = coarser(self.adjust_speed);
            },
            _ => {
                self.adjust_speed = finer(self.adjust_speed, MIN_ADJUST_SPEED);
            },
        }
    }

    #[verifier::rlimit(50)]

    fn apply_supply(&mut self, command: BoosterCommand)
        requires
            old(self).wf(),
            command is RfVoltage || command == BoosterCommand::FlipRfPhase || command is QuadBus
                || command is BendBus,
        ensures
            final(self).wf(),
            old(self).obeys_to(command, final(self)),
    {
        match command {
            BoosterCommand::RfVoltage { up } => {
                self.rf_voltage = if up {
                    at_most(plus(self.rf_voltage, RF_VOLTAGE_STEP), MAX_RF_VOLTAGE)
                } else {
                    at_least(minus(self.rf_voltage, RF_VOLTAGE_STEP), 0)
                };
                self.message = flash(Notice::RfVoltage { megavolts: self.rf_voltage });
            },
            BoosterCommand::QuadBus { up } => {
                self.quad_bus_trim = self.bus_trim(self.quad_bus_trim, up, MAX_QUAD_BUS_TRIM);
                self.message = flash(Notice::QuadBus { trim: self.quad_bus_trim });
            },
            BoosterCommand::BendBus { up } => {
                self.bend_bus_trim = self.bus_trim(self.bend_bus_trim, up, MAX_BEND_BUS_TRIM);
                self.message = flash(Notice::BendBus { trim: self.bend_bus_trim });
            },
            _ => {
                self.rf_phase = minus(HALF_TURN_DEGREES, self.rf_phase);
                self.message = flash(Notice::RfPhase { degrees: self.rf_phase });
            },
        }
    }

    #[verifier::rlimit(50)]

    fn apply_typing(&mut self, command: BoosterCommand)
        requires
            old(self).wf(),
            command == BoosterCommand::EnterCoordinates || command is Type || command
                == BoosterCommand::Erase || command == BoosterCommand::Cancel,
        ensures
            final(self).wf(),
            old(self).obeys_to(command, final(self)),
    {
        match command {
            BoosterCommand::EnterCoordinates => {
                if !self.beam_running {
                    self.input_mode = InputMode::InjectX;
                    self.input_buffer.clear();
                }
            },
            BoosterCommand::Type { c } => {
                if !matches!(self.input_mode, InputMode::Idle) && is_coordinate_char(c) {
                    self.input_buffer.push(c);
                }
            },
            BoosterCommand::Erase => {
                if !matches!(self.input_mode, InputMode::Idle) && self.input_buffer.len() > 0 {
                    let _ = self.input_buffer.pop();
                }
            },
            _ => {
                if !matches!(self.input_mode, InputMode::Idle) {
                    self.input_mode = InputMode::Idle;
                    self.input_buffer.clear();
                    self.message = flash(Notice::InjectCancelled);
                }
            },
        }
    }

    #[verifier::rlimit(50)]

    fn apply_selected(&mut self, command: BoosterCommand)
        requires
            old(self).wf(),
            command is AdjustSelected || command == BoosterCommand::ZeroSelected,
        ensures
            final(self).wf(),
            old(self).obeys_to(command, final(self)),
    {
        match command {
            BoosterCommand::AdjustSelected { up } => {
                let delta = if up {
                    self.adjust_speed
                } else {
                    -self.adjust_speed
                };
                let cell = self.selected_cell;
                let which = self.selected_corrector;
                self.adjust_corrector(cell, which, delta);
            },
            _ => {
                let cell = self.selected_cell;
                let zeroed = self.correctors[cell].with(self.selected_corrector, 0);
                self.correctors[cell] = zeroed;
            },
        }
    }

    /// Carries out one command of the player and says what the host has to
    /// do about it. A command that does not apply in the state the game is
    /// in changes nothing.
    #[verifier::rlimit(50)]
    pub fn apply_command(&mut self, command: BoosterCommand) -> (effect: Effect)
        requires
            old(self).wf(),
        ensures
            final(self).wf(),
            old(self).obeys_to(command, final(self)),
            effect == old(self).command_effect(command),
    {
        match command {
            BoosterCommand::Reset => {
                self.reset();
                Effect::Restarted
            },
            BoosterCommand::Inject => self.inject_at(0, 0, Notice::Injected),
            BoosterCommand::Submit => self.submit(),
            BoosterCommand::EditBump { horizontal, vertical, edit } => {
                self.edit_bump(horizontal, vertical, edit);
                Effect::Nothing
            },
            BoosterCommand::CopyCorrectors => {
                self.copy_correctors_to_all();
                Effect::Nothing
            },
            BoosterCommand::TogglePause
            | BoosterCommand::NextCell
            | BoosterCommand::PrevCell
            | BoosterCommand::SelectPrevious
            | BoosterCommand::SelectNext
            | BoosterCommand::NextDisplay
            | BoosterCommand::NextSpeed => {
                self.apply_navigation(command);
                Effect::Nothing
            },
            BoosterCommand::ShiftBump { .. }
            | BoosterCommand::CycleBump
            | BoosterCommand::Coarser
            | BoosterCommand::Finer => {
                self.apply_bump_mode(command);
                Effect::Nothing
            },
            BoosterCommand::RfVoltage { .. }
            | BoosterCommand::FlipRfPhase
            | BoosterCommand::QuadBus { .. }
            | BoosterCommand::BendBus { .. } => {
                self.apply_supply(command);
                Effect::Nothing
            },
            BoosterCommand::EnterCoordinates
            | BoosterCommand::Type { .. }
            | BoosterCommand::Erase
            | BoosterCommand::Cancel => {
                self.apply_typing(command);
                Effect::Nothing
            },
            BoosterCommand::AdjustSelected { .. } | BoosterCommand::ZeroSelected => {
                self.apply_selected(command);
                Effect::Nothing
            },
        }
    }

    /// The command that `key` gives while coordinates are being typed: all
    /// keys go to the typing.
    pub open spec fn spec_typing_command(key: Key) -> Option<BoosterCommand> {
        match key {
            Key::Esc => Some(BoosterCommand::Cancel),
            Key::Backspace => Some(BoosterCommand::Erase),
            Key::Enter => Some(BoosterCommand::Submit),
            Key::Char(c) => if is_coordinate_char(c) {
                Some(BoosterCommand::Type { c })
            } else {
                None
            },
            _ => None,
        }
    }

    /// The command that `key` gives while the game is running and not
    /// paused.
    pub open spec fn spec_playing_command(&self, key: Key) -> Option<BoosterCommand> {
        let in_bump = self.bump is Some;
        if key == Key::Char(' ') {
            Some(BoosterCommand::Inject)
        } else if key.is_letter('i', 'I') {
            Some(BoosterCommand::EnterCoordinates)
        } else if key == Key::Char(']') {
            Some(BoosterCommand::NextCell)
        } else if key == Key::Char('[') {
            Some(BoosterCommand::PrevCell)
        } else if key == Key::Up {
            Some(
                if in_bump {
                    BoosterCommand::EditBump {
                        horizontal: true,
                        vertical: true,
                        edit: TrimEdit::Raise,
                    }
                } else {
                    BoosterCommand::SelectPrevious
                },
            )
        } else if key == Key::Down {
            Some(
                if in_bump {
                    BoosterCommand::EditBump {
                        horizontal: true,
                        vertical: true,
                        edit: TrimEdit::Lower,
                    }
                } else {
                    BoosterCommand::SelectNext
                },
            )
        } else if key == Key::Left {
            Some(
                if in_bump {
                    BoosterCommand::ShiftBump { forward: false }
                } else {
                    BoosterCommand::AdjustSelected { up: false }
                },
            )
        } else if key == Key::Right {
            Some(
                if in_bump {
                    BoosterCommand::ShiftBump { forward: true }
                } else {
                    BoosterCommand::AdjustSelected { up: true }
                },
            )
        } else if key.is_letter('w', 'W') {
            Some(
                BoosterCommand::EditBump { horizontal: true, vertical: false, edit: TrimEdit::Raise },
            )
        } else if key.is_letter('s', 'S') {
            Some(
                BoosterCommand::EditBump { horizontal: true, vertical: false, edit: TrimEdit::Lower },
            )
        } else if key.is_letter('e', 'E') {
            Some(
                BoosterCommand::EditBump { horizontal: false, vertical: true, edit: TrimEdit::Raise },
            )
        } else if key.is_letter('q', 'Q') {
            Some(
                BoosterCommand::EditBump { horizontal: false, vertical: true, edit: TrimEdit::Lower },
            )
        } else if key.is_letter('f', 'F') {
            Some(BoosterCommand::RfVoltage { up: true })
        } else if key.is_letter('g', 'G') {
            Some(BoosterCommand::RfVoltage { up: false })
        } else if key.is_letter('v', 'V') {
            Some(BoosterCommand::NextDisplay)
        } else if key.is_letter('+', '=') {
            Some(BoosterCommand::Coarser)
        } else if key.is_letter('-', '_') {
            Some(BoosterCommand::Finer)
        } else if key.is_letter('c', 'C') {
            Some(BoosterCommand::CopyCorrectors)
        } else if key.is_letter('z', 'Z') {
            Some(
                if in_bump {
                    BoosterCommand::EditBump {
                        horizontal: true,
                        vertical: true,
                        edit: TrimEdit::Zero,
                    }
                } else {
                    BoosterCommand::ZeroSelected
                },
            )
        } else if key.is_letter('t', 'T') {
            Some(BoosterCommand::FlipRfPhase)
        } else if key.is_letter('j', 'J') {
            Some(BoosterCommand::QuadBus { up: true })
        } else if key.is_letter('k', 'K') {
            Some(BoosterCommand::QuadBus { up: false })
        } else if key.is_letter('m', 'M') {
            Some(BoosterCommand::BendBus { up: true })
        } else if key.is_letter('n', 'N') {
            Some(BoosterCommand::BendBus { up: false })
        } else if key.is_letter('b', 'B') {
            Some(BoosterCommand::CycleBump)
        } else if key.is_letter('.', '>') {
            Some(BoosterCommand::NextSpeed)
        } else {
            None
        }
    }

    /// The command that `key` gives in the state the game is in.
    ///
    /// While coordinates are being typed every key goes to the typing.
    /// Otherwise `r` starts over and `p` pauses at any time; once the game
    /// is over, Enter and the space bar start over and no other key does
    /// anything; and a paused game reacts to no other key.
    pub open spec fn spec_command_for(&self, key: Key) -> Option<BoosterCommand> {
        if self.input_mode != InputMode::Idle {
            Self::spec_typing_command(key)
        } else if key.is_letter('r', 'R') {
            Some(BoosterCommand::Reset)
        } else if key.is_letter('p', 'P') {
            Some(BoosterCommand::TogglePause)
        } else if self.beam_lost || self.phase == GamePhase::Extraction {
            if key == Key::Enter || key == Key::Char(' ') {
                Some(BoosterCommand::Reset)
            } else {
                None
            }
        } else if self.paused {
            None
        } else {
            self.spec_playing_command(key)
        }
    }

    fn playing_command(&self, key: Key) -> (r: Option<BoosterCommand>)
        ensures
            r == self.spec_playing_command(key),
    {
        let in_bump = self.bump.is_some();
        match key {
            Key::Char(' ') => Some(BoosterCommand::Inject),
            Key::Char(']') => Some(BoosterCommand::NextCell),
            Key::Char('[') => Some(BoosterCommand::PrevCell),
            Key::Up => Some(
                if in_bump {
                    BoosterCommand::EditBump { horizontal: true, vertical: true, edit: TrimEdit::Raise }
                } else {
                    BoosterCommand::SelectPrevious
                },
            ),
            Key::Down => Some(
                if in_bump {
                    BoosterCommand::EditBump { horizontal: true, vertical: true, edit: TrimEdit::Lower }
                } else {
                    BoosterCommand::SelectNext
                },
            ),
            Key::Left => Some(
                if in_bump {
                    BoosterCommand::ShiftBump { forward: false }
                } else {
                    BoosterCommand::AdjustSelected { up: false }
                },
            ),
            Key::Right => Some(
                if in_bump {
                    BoosterCommand::ShiftBump { forward: true }
                } else {
                    BoosterCommand::AdjustSelected { up: true }
                },
            ),
            _ => {
                if key.is_letter('i', 'I') {
                    Some(BoosterCommand::EnterCoordinates)
                } else if key.is_letter('w', 'W') {
                    Some(
                        BoosterCommand::EditBump {
                            horizontal: true,
                            vertical: false,
                            edit: TrimEdit::Raise,
                        },
                    )
                } else if key.is_letter('s', 'S') {
                    Some(
                        BoosterCommand::EditBump {
                            horizontal: true,
                            vertical: false,
                            edit: TrimEdit::Lower,
                        },
                    )
                } else if key.is_letter('e', 'E') {
                    Some(
                        BoosterCommand::EditBump {
                            horizontal: false,
                            vertical: true,
                            edit: TrimEdit::Raise,
                        },
                    )
                } else if key.is_letter('q', 'Q') {
                    Some(
                        BoosterCommand::EditBump {
                            horizontal: false,
                            vertical: true,
                            edit: TrimEdit::Lower,
                        },
                    )
                } else if key.is_letter('f', 'F') {
                    Some(BoosterCommand::RfVoltage { up: true })
                } else if key.is_letter('g', 'G') {
                    Some(BoosterCommand::RfVoltage { up: false })
                } else if key.is_letter('v', 'V') {
                    Some(BoosterCommand::NextDisplay)
                } else if key.is_letter('+', '=') {
                    Some(BoosterCommand::Coarser)
                } else if key.is_letter('-', '_') {
                    Some(BoosterCommand::Finer)
                } else if key.is_letter('c', 'C') {
                    Some(BoosterCommand::CopyCorrectors)
                } else if key.is_letter('z', 'Z') {
                    Some(
                        if in_bump {
                            BoosterCommand::EditBump { horizontal: true, vertical: true, edit: TrimEdit::Zero }
                        } else {
                            BoosterCommand::ZeroSelected
                        },
                    )
                } else if key.is_letter('t', 'T') {
                    Some(BoosterCommand::FlipRfPhase)
                } else if key.is_letter('j', 'J') {
                    Some(BoosterCommand::QuadBus { up: true })
                } else if key.is_letter('k', 'K') {
                    Some(BoosterCommand::QuadBus { up: false })
                } else if key.is_letter('m', 'M') {
                    Some(BoosterCommand::BendBus { up: true })
                } else if key.is_letter('n', 'N') {
                    Some(BoosterCommand::BendBus { up: false })
                } else if key.is_letter('b', 'B') {
                    Some(BoosterCommand::CycleBump)
                } else if key.is_letter('.', '>') {
                    Some(BoosterCommand::NextSpeed)
                } else {
                    None
                }
            },
        }
    }

    /// The command that `key` gives in the state the game is in.
    #[verifier::when_used_as_spec(spec_command_for)]
    pub fn command_for(&self, key: Key) -> (r: Option<BoosterCommand>)
        ensures
            r == self.spec_command_for(key),
    {
        if !matches!(self.input_mode, InputMode::Idle) {
            match key {
                Key::Esc => Some(BoosterCommand::Cancel),
                Key::Backspace => Some(BoosterCommand::Erase),
                Key::Enter => Some(BoosterCommand::Submit),
                Key::Char(c) => if is_coordinate_char(c) {
                    Some(BoosterCommand::Type { c })
                } else {
                    None
                },
                _ => None,
            }
        } else if key.is_letter('r', 'R') {
            Some(BoosterCommand::Reset)
        } else if key.is_letter('p', 'P') {
            Some(BoosterCommand::TogglePause)
        } else if self.beam_lost || matches!(self.phase, GamePhase::Extraction) {
            match key {
                Key::Enter | Key::Char(' ') => Some(BoosterCommand::Reset),
                _ => None,
            }
        } else if self.paused {
            None
        } else {
            self.playing_command(key)
        }
    }

    /// Reacts to a key: carries out the command that the key gives in the
    /// state the game is in, if it gives one, and says what the host has to
    /// do about it.
    pub fn handle_input(&mut self, key: Key) -> (effect: Effect)
        requires
            old(self).wf(),
        ensures
            final(self).wf(),
            match old(self).command_for(key) {
                Some(command) => old(self).obeys_to(command, final(self)) && effect == old(self).command_effect(command),
                None => *final(self) == *old(self) && effect == Effect::Nothing,
            },
    {
        match self.command_for(key) {
            Some(command) => self.apply_command(command),
            None => Effect::Nothing,
        }
    }
}

/// Beginning and ending a tick, and beginning a sub-step, leave the
/// accumulated losses as they are.
#[verifier::rlimit(50)]
pub proof fn lemma_pacing_keeps_losses(before: BoosterGame, after: BoosterGame)
    requires
        before.tick_begins_to(&after) || before.tick_ends_to(&after) || before.begins_to(&after),
    ensures
        before.beam_losses == after.beam_losses,
{
}

/// The accounting for an element never lets the accumulated losses fall.
#[verifier::rlimit(50)]
pub proof fn lemma_element_keeps_losses(before: BoosterGame, sample: BeamSample, after: BoosterGame)
    requires
        before.wf(),
        before.element_finishes_to(sample, &after),
    ensures
        before.beam_losses <= after.beam_losses,
{
    let shed = BoosterGame::shed_at(sample);
    let losses = crate::loss::accumulate(before.beam_losses, shed);
    assert(before.beam_losses <= losses);
    match before.element_result(sample) {
        ElementOutcome::Unexpected | ElementOutcome::HitWall => {
            assert(after.beam_losses == before.beam_losses);
        },
        _ => {
            assert(after.beam_losses == losses);
        },
    }
}

/// The accounting for a turn never lets the accumulated losses fall.
#[verifier::rlimit(50)]
pub proof fn lemma_turn_keeps_losses(before: BoosterGame, report: TurnReport, after: BoosterGame)
    requires
        before.wf(),
        before.turn_finishes_to(report, &after),
    ensures
        before.beam_losses <= after.beam_losses,
{
    if before.awaiting == Awaiting::Turn {
        let quality = before.turn_quality(report);
        assert(quality >= 0);
        assert(quality * 2 / 1 >= 0);
        assert(after.beam_losses == before.losses_after_turn(report));
    }
}

/// No command touches the accumulated losses but injection, where it acts,
/// and starting over, which bring them to zero.
#[verifier::rlimit(50)]
pub proof fn lemma_commands_and_losses(
    before: BoosterGame,
    command: BoosterCommand,
    after: BoosterGame,
)
    requires
        before.wf(),
        before.obeys_to(command, &after),
    ensures
        before.command_effect(command) == Effect::Nothing ==> after.beam_losses
            == before.beam_losses,
        before.command_effect(command) != Effect::Nothing ==> after.beam_losses == 0,
{
    if command == BoosterCommand::Submit && before.input_mode == InputMode::InjectY {
        match spec_parse_decimal(before.input_buffer@) {
            Some(value) => {
                let typed = choose|typed: BoosterGame|
                    {
                        &&& typed.input_buffer@.len() == 0
                        &&& typed == (BoosterGame {
                            input_buffer: typed.input_buffer,
                            inject_y: value,
                            input_mode: InputMode::Idle,
                            ..before
                        })
                        &&& #[trigger] typed.injects_to(
                            before.inject_x,
                            value,
                            Notice::InjectedAt { x: before.inject_x, y: value },
                            &after,
                        )
                    };
            },
            None => {},
        }
    }
}

/// The score counts the extraction bonus exactly once, and only for a beam
/// that has been extracted.
#[verifier::rlimit(50)]
pub proof fn lemma_score_counts_extraction_once(game: BoosterGame)
    requires
        game.wf(),
    ensures
        game.phase == GamePhase::Extraction ==> game.spec_get_score() == (BoosterGame {
            phase: GamePhase::PostTransition,
            ..game
        }).spec_get_score() + crate::booster::EXTRACTION_BONUS,
        game.phase == GamePhase::Extraction ==> game.spec_is_game_over(),
        game.phase != GamePhase::Extraction ==> game.spec_get_score() < TURNS_IN_CYCLE + 1000
            + crate::booster::TRANSITION_BONUS + 1,
{
}

/// The sum of the horizontal trims of the first `n` cells.
pub open spec fn h_trim_total(correctors: Seq<CorrectorPackage>, n: int) -> int
    decreases n,
{
    if n <= 0 {
        0
    } else {
        h_trim_total(correctors, n - 1) + correctors[n - 1].h_trim
    }
}

/// Changing the package of one cell changes the sum of the horizontal trims
/// by as much as the trim of that cell changes.
#[verifier::rlimit(50)]
pub proof fn lemma_total_after_update(
    correctors: Seq<CorrectorPackage>,
    cell: int,
    package: CorrectorPackage,
    n: int,
)
    requires
        0 <= cell < correctors.len(),
        0 <= n <= correctors.len(),
    ensures
        h_trim_total(correctors.update(cell, package), n) == h_trim_total(correctors, n) + if cell
            < n {
            package.h_trim - correctors[cell].h_trim
        } else {
            0
        },
    decreases n,
{
    if n > 0 {
        lemma_total_after_update(correctors, cell, package, n - 1);
    }
}

/// The packages after the first `k` kicks of a bump were given one after
/// the other, each raising the horizontal trim of its cell by `speed` times
/// its coefficient.
pub open spec fn kicked_in_turn(
    correctors: Seq<CorrectorPackage>,
    bump: BumpConfig,
    speed: i64,
    k: int,
) -> Seq<CorrectorPackage>
    decreases k,
{
    if k <= 0 {
        correctors
    } else {
        let before = kicked_in_turn(correctors, bump, speed, k - 1);
        let cell = bump.cell_of(k - 1);
        before.update(
            cell,
            bump_edited(before[cell], bump.pattern()[k - 1], speed, true, false, TrimEdit::Raise),
        )
    }
}

/// A bump is closed: raising the horizontal trims through a bump leaves
/// their sum over the ring as it was, so that the kicks cancel and the orbit
/// beyond the span keeps its angle. This holds as long as no trim is driven
/// beyond the range of the simulation.
#[verifier::rlimit(50)]
pub proof fn lemma_bump_is_closed(before: BoosterGame, after: BoosterGame)
    requires
        before.wf(),
        before.bump is Some,
        forall|cell: int|
            0 <= cell < NUM_SECTIONS ==> -LIMIT + 2 * ONE <= (
            #[trigger] before.correctors@[cell]).h_trim <= LIMIT - 2 * ONE,
        before.bump_edits_to(true, false, TrimEdit::Raise, &after),
    ensures
        h_trim_total(after.correctors@, NUM_SECTIONS as int) == h_trim_total(
            before.correctors@,
            NUM_SECTIONS as int,
        ),
{
    let bump = before.bump->0;
    let speed = before.adjust_speed;
    let start = before.correctors@;
    let n = NUM_SECTIONS as int;
    crate::bump::lemma_bump_cells_distinct(bump, 0, 1);
    crate::bump::lemma_bump_cells_distinct(bump, 0, 2);
    crate::bump::lemma_bump_cells_distinct(bump, 1, 2);
    let s0 = kicked_in_turn(start, bump, speed, 0);
    let s1 = kicked_in_turn(start, bump, speed, 1);
    let s2 = kicked_in_turn(start, bump, speed, 2);
    let s3 = kicked_in_turn(start, bump, speed, 3);
    let s4 = kicked_in_turn(start, bump, speed, 4);
    let s5 = kicked_in_turn(start, bump, speed, 5);
    reveal_with_fuel(kicked_in_turn, 6);
    let c0 = bump.cell_of(0);
    let c1 = bump.cell_of(1);
    let c2 = bump.cell_of(2);
    let c3 = bump.cell_of(3);
    let c4 = bump.cell_of(4);
    assert(s0 == start);
    // What each kick adds to the trim of its cell.
    assert(speed * 1 / 1 == speed && speed * (-1) / 1 == -speed && speed * 2 / 1 == 2 * speed
        && speed * (-2) / 1 == -2 * speed) by (nonlinear_arith);
    assert((-(speed * (-1))) / 1 == speed && (-(speed * (-2))) / 1 == 2 * speed)
        by (nonlinear_arith);
    lemma_total_after_update(s0, c0, s1[c0], n);
    lemma_total_after_update(s1, c1, s2[c1], n);
    lemma_total_after_update(s2, c2, s3[c2], n);
    let last = if bump.size == 3 {
        s3
    } else if bump.size == 4 {
        crate::bump::lemma_bump_cells_distinct(bump, 0, 3);
        crate::bump::lemma_bump_cells_distinct(bump, 1, 3);
        crate::bump::lemma_bump_cells_distinct(bump, 2, 3);
        lemma_total_after_update(s3, c3, s4[c3], n);
        s4
    } else {
        crate::bump::lemma_bump_cells_distinct(bump, 0, 3);
        crate::bump::lemma_bump_cells_distinct(bump, 1, 3);
        crate::bump::lemma_bump_cells_distinct(bump, 2, 3);
        crate::bump::lemma_bump_cells_distinct(bump, 0, 4);
        crate::bump::lemma_bump_cells_distinct(bump, 1, 4);
        crate::bump::lemma_bump_cells_distinct(bump, 2, 4);
        crate::bump::lemma_bump_cells_distinct(bump, 3, 4);
        lemma_total_after_update(s3, c3, s4[c3], n);
        lemma_total_after_update(s4, c4, s5[c4], n);
        s5
    };
    assert(h_trim_total(last, n) == h_trim_total(start, n));
    assert forall|cell: int| 0 <= cell < n implies after.correctors@[cell] == last[cell] by {
        crate::bump::lemma_span_has_coefficient(bump, cell);
        let k = bump.offset_of(cell);
        if k < bump.size {
            assert(bump.cell_of(k) == cell);
        }
    }
    assert(after.correctors@ =~= last);
}

/// Extraction and loss are final: once the game is over, nothing that the
/// host does in the course of a tick and no command but starting over
/// changes the phase, the turn or the score.
#[verifier::rlimit(50)]
pub proof fn lemma_game_over_is_final(
    before: BoosterGame,
    after: BoosterGame,
    sample: BeamSample,
    report: TurnReport,
    command: BoosterCommand,
)
    requires
        before.wf(),
        before.spec_is_game_over(),
        before.tick_begins_to(&after) || before.tick_ends_to(&after) || before.begins_to(&after)
            || before.element_finishes_to(sample, &after) || before.turn_finishes_to(
            report,
            &after,
        ) || (command != BoosterCommand::Reset && before.obeys_to(command, &after)),
    ensures
        after.phase == before.phase,
        after.beam_lost == before.beam_lost,
        after.ramp_turn == before.ramp_turn,
        after.spec_get_score() == before.spec_get_score(),
{
    if command != BoosterCommand::Reset && before.obeys_to(command, &after) {
        if command == BoosterCommand::Submit && before.input_mode == InputMode::InjectY {
            match spec_parse_decimal(before.input_buffer@) {
                Some(value) => {
                    let typed = choose|typed: BoosterGame|
                        {
                            &&& typed.input_buffer@.len() == 0
                            &&& typed == (BoosterGame {
                                input_buffer: typed.input_buffer,
                                inject_y: value,
                                input_mode: InputMode::Idle,
                                ..before
                            })
                            &&& #[trigger] typed.injects_to(
                                before.inject_x,
                                value,
                                Notice::InjectedAt { x: before.inject_x, y: value },
                                &after,
                            )
                        };
                },
                None => {},
            }
        }
    }
}

} // verus!
