//! Playing the storage-ring game: the tick of the host, and what each command
//! of the player does.

use vstd::prelude::*;
use crate::beam::{powered_from, BeamGame, BeamState, Step, MAX_HISTORY, MIN_ADJUST_SPEED};
use crate::bump::{next_bump_mode, spec_next_bump_mode, TrimEdit};
use crate::controls::{coarser, finer};
use crate::fixed::{negate, plus, scale};
use crate::history::{record, recorded};
use crate::input::Key;
use crate::lattice::{Magnet, ELEMENTS_PER_CELL, HTRIM_SLOT, NUM_SECTIONS, TOTAL_ELEMENTS, VTRIM_SLOT};
use crate::notice::{faded, flash, Notice};
use crate::ramp::NUM_RAMPS;

verus! {

/// Number of sub-steps that one tick of the host advances the beam by.
pub const STEPS_PER_TICK: u32 = 3;

/// Every how many ticks the display histories take a sample.
pub const SAMPLE_EVERY: u64 = 3;

/// What the player can ask of the game.
#[derive(Clone, Copy, PartialEq, Eq, Structural, Debug)]
pub enum BeamCommand {
    /// Start over, keeping the machine as the player has set it.
    Reset,
    /// Pause, or go on.
    TogglePause,
    /// Inject the beam at the target.
    Inject,
    /// Select the magnet before the selected one.
    SelectPrevious,
    /// Select the magnet after the selected one.
    SelectNext,
    /// Edit the trims that the bump spans, in one or both planes.
    EditBump { horizontal: bool, vertical: bool, edit: TrimEdit },
    /// Move the bump by one cell.
    ShiftBump { forward: bool },
    /// Move the selected checkpoint of the selected magnet by one step.
    AdjustSelected { up: bool },
    /// Double the adjustment step.
    Coarser,
    /// Halve the adjustment step.
    Finer,
    /// Copy the selected section to all others.
    CopySection,
    /// Select the same magnet of the next section.
    NextSection,
    /// Select the same magnet of the section before.
    PrevSection,
    /// Set the selected checkpoint of the selected magnet to zero.
    ZeroSelected,
    /// Select a checkpoint for editing.
    SelectRamp { index: usize },
    /// Go to the next bump mode: off, 3, 4, 5 cells, off.
    CycleBump,
    /// Switch between easy and hard.
    ToggleDifficulty,
}

impl BeamGame {
    /// Whether the game has ended, by loss or by success.
    pub open spec fn spec_is_game_over(&self) -> bool {
        self.beam_lost || self.beam_completed
    }

    /// Whether the game has ended, by loss or by success.
    #[verifier::when_used_as_spec(spec_is_game_over)]
    pub fn is_game_over(&self) -> (r: bool)
        ensures
            r == self.spec_is_game_over(),
    {
        self.beam_lost || self.beam_completed
    }

    /// The score: a point for every turn that the beam has completed.
    pub open spec fn spec_get_score(&self) -> u32 {
        self.turns_completed
    }

    /// The score. A function of the state alone.
    #[verifier::when_used_as_spec(spec_get_score)]
    pub fn get_score(&self) -> (r: u32)
        ensures
            r == self.spec_get_score(),
            r == self.turns_completed,
    {
        self.turns_completed
    }

    /// Whether `after` is the game `n` sub-steps later, or at the sub-step
    /// at which the beam was lost or stored, if that came earlier.
    pub open spec fn runs_to(&self, n: nat, after: &BeamGame) -> bool
        decreases n,
    {
        if n == 0 || self.beam_lost || self.beam_completed {
            *after == *self
        } else {
            exists|mid: BeamGame| #[trigger]
                self.steps_to(&mid) && mid.runs_to((n - 1) as nat, after)
        }
    }

    /// Whether `after` is this game with one sample of the beam added to
    /// each display history.
    pub open spec fn samples_to(&self, after: &BeamGame) -> bool {
        &&& after.pos_history@ == recorded(self.pos_history@, self.beam.position, MAX_HISTORY as int)
        &&& after.size_history@ == recorded(self.size_history@, self.beam.size, MAX_HISTORY as int)
        &&& after.y_pos_history@ == recorded(
            self.y_pos_history@,
            self.beam.y_position,
            MAX_HISTORY as int,
        )
        &&& after.y_size_history@ == recorded(
            self.y_size_history@,
            self.beam.y_size,
            MAX_HISTORY as int,
        )
        &&& *after == (BeamGame {
            pos_history: after.pos_history,
            size_history: after.size_history,
            y_pos_history: after.y_pos_history,
            y_size_history: after.y_size_history,
            ..*self
        })
    }

    /// Whether `start` is this game as a tick begins to move the beam: the
    /// flash faded, the tick counted, and every magnet at the power that its
    /// ramp gives for the turn the beam is in.
    pub open spec fn powers_up_to(&self, start: &BeamGame) -> bool {
        &&& start.magnets@ == powered_from(
            self.magnets@,
            self.ramp_powers@,
            crate::ramp::checkpoint(self.turns_completed) as int,
        )
        &&& *start == (BeamGame {
            magnets: start.magnets,
            tick: (self.tick + 1) as u64,
            message: faded(self.message),
            ..*self
        })
    }

    /// Whether `after` is the game one tick of the host later.
    ///
    /// A flash fades with every tick. A game that is paused or over does
    /// nothing else. Otherwise the tick is counted and, if a beam is
    /// running, the magnets take the power of their ramps, the beam
    /// advances by `STEPS_PER_TICK` sub-steps unless it ends before, and on
    /// every third tick the histories take a sample.
    pub open spec fn updates_to(&self, after: &BeamGame) -> bool {
        if self.paused || self.beam_lost || self.beam_completed {
            *after == (BeamGame { message: faded(self.message), ..*self })
        } else if !self.beam_running {
            *after == (BeamGame {
                message: faded(self.message),
                tick: (self.tick + 1) as u64,
                ..*self
            })
        } else {
            exists|start: BeamGame, ran: BeamGame|
                {
                    &&& self.powers_up_to(&start)
                    &&& #[trigger] start.runs_to(STEPS_PER_TICK as nat, &ran)
                    &&& if (self.tick + 1) % (SAMPLE_EVERY as int) == 0 {
                        ran.samples_to(after)
                    } else {
                        *after == ran
                    }
                }
        }
    }

    /// Advances the game by one tick of the host.
    #[verifier::rlimit(50)]
    pub fn update(&mut self)
        requires
            old(self).wf(),
            old(self).tick < u64::MAX,
        ensures
            final(self).wf(),
            old(self).updates_to(final(self)),
            old(self).beam_losses <= final(self).beam_losses,
    {
        self.message = faded(self.message);
        if self.paused || self.beam_lost || self.beam_completed {
            return;
        }
        self.tick += 1;
        if !self.beam_running {
            return;
        }
        self.sync_interpolated_powers();
        let ghost start = *self;
        let mut n: u32 = 0;
        while n < STEPS_PER_TICK && !self.beam_lost && !self.beam_completed
            invariant
                n <= STEPS_PER_TICK,
                self.wf(),
                self.tick == start.tick,
                start.beam_losses <= self.beam_losses,
                forall|fin: BeamGame| #[trigger]
                    self.runs_to((STEPS_PER_TICK - n) as nat, &fin) ==> start.runs_to(
                        STEPS_PER_TICK as nat,
                        &fin,
                    ),
            decreases STEPS_PER_TICK - n,
        {
            let ghost before = *self;
            let _ = self.advance_beam();
            proof {
                let left = (STEPS_PER_TICK - n) as nat;
                assert forall|fin: BeamGame| #[trigger]
                    self.runs_to((left - 1) as nat, &fin) implies start.runs_to(
                    STEPS_PER_TICK as nat,
                    &fin,
                ) by {
                    assert(before.steps_to(self));
                    assert(before.runs_to(left, &fin));
                }
            }
            n += 1;
        }
        let ghost ran = *self;
        assert(self.runs_to((STEPS_PER_TICK - n) as nat, &ran));
        assert(start.runs_to(STEPS_PER_TICK as nat, &ran));
        if self.tick % SAMPLE_EVERY == 0 {
            record(&mut self.pos_history, self.beam.position, MAX_HISTORY);
            record(&mut self.size_history, self.beam.size, MAX_HISTORY);
            record(&mut self.y_pos_history, self.beam.y_position, MAX_HISTORY);
            record(&mut self.y_size_history, self.beam.y_size, MAX_HISTORY);
            assert(ran.samples_to(self));
        }
        assert(old(self).powers_up_to(&start));
    }

    /// Whether a beam can be injected: none is running and the game is not
    /// over.
    pub open spec fn can_inject(&self) -> bool {
        !self.beam_running && !self.beam_lost && !self.beam_completed
    }

    /// Whether `after` is the game with a beam newly injected at the target:
    /// at rest at the start of the ring, with no losses, an empty trail and
    /// empty histories. A game in which no beam can be injected is left
    /// alone.
    pub open spec fn injects_to(&self, after: &BeamGame) -> bool {
        if !self.can_inject() {
            *after == *self
        } else {
            &&& after.trail@.len() == 0
            &&& after.pos_history@.len() == 0
            &&& after.size_history@.len() == 0
            &&& after.y_pos_history@.len() == 0
            &&& after.y_size_history@.len() == 0
            &&& *after == (BeamGame {
                beam_running: true,
                beam: BeamState::spec_injected(self.target_x, self.target_y),
                beam_section: 0,
                beam_element: 0,
                beam_progress: 0,
                beam_losses: 0,
                trail: after.trail,
                pos_history: after.pos_history,
                size_history: after.size_history,
                y_pos_history: after.y_pos_history,
                y_size_history: after.y_size_history,
                ..*self
            })
        }
    }

    /// Injects the beam at the target, if one can be injected.
    #[verifier::rlimit(50)]
    pub fn inject(&mut self)
        requires
            old(self).wf(),
        ensures
            final(self).wf(),
            old(self).injects_to(final(self)),
            old(self).can_inject() ==> final(self).beam_losses == 0,
    {
        if self.beam_running || self.beam_lost || self.beam_completed {
            return;
        }
        self.beam_running = true;
        self.beam = BeamState::injected(self.target_x, self.target_y);
        self.beam_section = 0;
        self.beam_element = 0;
        self.beam_progress = 0;
        self.beam_losses = 0;
        self.trail.clear();
        self.pos_history.clear();
        self.size_history.clear();
        self.y_pos_history.clear();
        self.y_size_history.clear();
    }

    /// Whether `after` is the game started over: no beam, nothing recorded
    /// and nothing counted but the best number of turns. What the player
    /// has set (ramps, selection, bump, adjustment step, difficulty) and
    /// where obstacles and target are stays; every magnet shows the
    /// checkpoint selected for editing.
    pub open spec fn resets_to(&self, after: &BeamGame) -> bool {
        &&& after.magnets@ == powered_from(
            self.magnets@,
            self.ramp_powers@,
            self.selected_ramp as int,
        )
        &&& after.trail@.len() == 0
        &&& after.pos_history@.len() == 0
        &&& after.size_history@.len() == 0
        &&& after.y_pos_history@.len() == 0
        &&& after.y_size_history@.len() == 0
        &&& after.turn_positions@.len() == 0
        &&& *after == (BeamGame {
            magnets: after.magnets,
            beam_running: false,
            beam: BeamState::spec_injected(0, 0),
            beam_section: 0,
            beam_element: 0,
            beam_progress: 0,
            beam_lost: false,
            beam_losses: 0,
            beam_completed: false,
            turns_completed: 0,
            tick: 0,
            paused: false,
            message: None,
            trail: after.trail,
            pos_history: after.pos_history,
            size_history: after.size_history,
            y_pos_history: after.y_pos_history,
            y_size_history: after.y_size_history,
            turn_positions: after.turn_positions,
            ..*self
        })
    }

    /// Starts over, keeping the machine as the player has set it.
    #[verifier::rlimit(50)]
    pub fn reset(&mut self)
        requires
            old(self).wf(),
        ensures
            final(self).wf(),
            old(self).resets_to(final(self)),
    {
        self.beam_running = false;
        self.beam = BeamState::injected(0, 0);
        self.beam_section = 0;
        self.beam_element = 0;
        self.beam_progress = 0;
        self.beam_lost = false;
        self.beam_losses = 0;
        self.beam_completed = false;
        self.turns_completed = 0;
        self.tick = 0;
        self.paused = false;
        self.message = None;
        self.trail.clear();
        self.pos_history.clear();
        self.size_history.clear();
        self.y_pos_history.clear();
        self.y_size_history.clear();
        self.turn_positions.clear();
        self.sync_display_from_ramp();
    }

    /// The coefficient with which the bump acts on magnet `m`, if the bump
    /// is on, `m` is a trim of a plane that is being edited, and the section
    /// of `m` lies in the span.
    pub open spec fn bump_coefficient_for(&self, m: int, horizontal: bool, vertical: bool) -> Option<
        i64,
    > {
        match self.bump {
            Some(b) => if (m % (ELEMENTS_PER_CELL as int) == HTRIM_SLOT && horizontal) || (m % (
            ELEMENTS_PER_CELL as int) == VTRIM_SLOT && vertical) {
                b.coefficient_at(m / (ELEMENTS_PER_CELL as int))
            } else {
                None
            },
            None => None,
        }
    }

    /// The value that `edit` asks for at the selected checkpoint of magnet
    /// `m`, on which the bump acts with coefficient `coeff`.
    pub open spec fn trim_request(&self, m: int, coeff: i64, edit: TrimEdit) -> i64 {
        let current = self.ramp_powers@[m].points@[self.selected_ramp as int];
        match edit {
            TrimEdit::Raise => plus(current, scale(self.adjust_speed, coeff, 1)),
            TrimEdit::Lower => plus(current, negate(scale(self.adjust_speed, coeff, 1))),
            TrimEdit::Zero => 0,
        }
    }

    /// Whether `after` is the game after the trims of the bump were edited.
    ///
    /// Every trim on which the bump acts has its selected checkpoint edited
    /// to what `edit` asks for, through the ramp and its slew limit, and
    /// shows what was stored. All other magnets and ramps stay. Setting the
    /// trims to zero is announced.
    pub open spec fn bump_edits_to(
        &self,
        horizontal: bool,
        vertical: bool,
        edit: TrimEdit,
        after: &BeamGame,
    ) -> bool {
        &&& after.magnets@.len() == TOTAL_ELEMENTS
        &&& after.ramp_powers@.len() == TOTAL_ELEMENTS
        &&& forall|m: int|
            0 <= m < TOTAL_ELEMENTS ==> match self.bump_coefficient_for(m, horizontal, vertical) {
                Some(c) => {
                    &&& (#[trigger] after.ramp_powers@[m]).points@ == self.ramp_powers@[m].edited(
                        self.selected_ramp,
                        self.trim_request(m, c, edit),
                    )
                    &&& after.magnets@[m] == (Magnet {
                        power: after.ramp_powers@[m].points@[self.selected_ramp as int],
                        ..self.magnets@[m]
                    })
                },
                None => after.ramp_powers@[m] == self.ramp_powers@[m] && after.magnets@[m]
                    == self.magnets@[m],
            }
        &&& *after == (BeamGame {
            magnets: after.magnets,
            ramp_powers: after.ramp_powers,
            message: if edit == TrimEdit::Zero && self.bump is Some {
                flash(Notice::ZeroedBumpTrims { ramp: self.selected_ramp })
            } else {
                self.message
            },
            ..*self
        })
    }

    /// Edits the trims that the bump spans, in the planes asked for. Without
    /// a bump nothing happens.
    #[verifier::rlimit(50)]
    pub fn edit_bump(&mut self, horizontal: bool, vertical: bool, edit: TrimEdit)
        requires
            old(self).wf(),
        ensures
            final(self).wf(),
            old(self).bump_edits_to(horizontal, vertical, edit, final(self)),
    {
        let bump = match self.bump {
            Some(b) => b,
            None => {
                return;
            },
        };
        let sec_coeffs = bump.section_coefficients();
        let mut i: usize = 0;
        while i < sec_coeffs.len()
            invariant
                i <= sec_coeffs@.len(),
                old(self).wf(),
                self.wf(),
                old(self).bump == Some(bump),
                bump.wf(),
                sec_coeffs@.len() == bump.size,
                forall|k: int|
                    0 <= k < sec_coeffs@.len() ==> (#[trigger] sec_coeffs@[k]).0 == bump.cell_of(k)
                        && sec_coeffs@[k].1 == bump.pattern()[k],
                forall|m: int|
                    0 <= m < TOTAL_ELEMENTS ==> match old(self).bump_coefficient_for(
                        m,
                        horizontal,
                        vertical,
                    ) {
                        Some(c) => if bump.offset_of(m / 6) < i {
                            &&& (#[trigger] self.ramp_powers@[m]).points@ == old(self).ramp_powers@[m].edited(
                                old(self).selected_ramp,
                                old(self).trim_request(m, c, edit),
                            )
                            &&& self.magnets@[m] == (Magnet {
                                power: self.ramp_powers@[m].points@[old(self).selected_ramp as int],
                                ..old(self).magnets@[m]
                            })
                        } else {
                            self.ramp_powers@[m] == old(self).ramp_powers@[m] && self.magnets@[m]
                                == old(self).magnets@[m]
                        },
                        None => self.ramp_powers@[m] == old(self).ramp_powers@[m]
                            && self.magnets@[m] == old(self).magnets@[m],
                    },
                *self == (BeamGame {
                    magnets: self.magnets,
                    ramp_powers: self.ramp_powers,
                    ..*old(self)
                }),
            decreases sec_coeffs@.len() - i,
        {
            let (sec, coeff) = sec_coeffs[i];
            assert(sec == bump.cell_of(i as int) && coeff == bump.pattern()[i as int]);
            assert(bump.offset_of(sec as int) == i);
            let ghost before = *self;
            if horizontal {
                let idx = sec * ELEMENTS_PER_CELL + HTRIM_SLOT;
                let value = self.requested(idx, coeff, edit);
                self.set_ramp_power(idx, value);
            }
            let ghost between = *self;
            if vertical {
                let idx = sec * ELEMENTS_PER_CELL + VTRIM_SLOT;
                let value = self.requested(idx, coeff, edit);
                self.set_ramp_power(idx, value);
            }
            proof {
                assert forall|m: int| 0 <= m < TOTAL_ELEMENTS implies match old(self).bump_coefficient_for(m, horizontal, vertical) {
                    Some(c) => if bump.offset_of(m / 6) < i + 1 {
                        &&& (#[trigger] self.ramp_powers@[m]).points@ == old(self).ramp_powers@[m].edited(
                            old(self).selected_ramp,
                            old(self).trim_request(m, c, edit),
                        )
                        &&& self.magnets@[m] == (Magnet {
                            power: self.ramp_powers@[m].points@[old(self).selected_ramp as int],
                            ..old(self).magnets@[m]
                        })
                    } else {
                        self.ramp_powers@[m] == old(self).ramp_powers@[m] && self.magnets@[m]
                            == old(self).magnets@[m]
                    },
                    None => self.ramp_powers@[m] == old(self).ramp_powers@[m] && self.magnets@[m]
                        == old(self).magnets@[m],
                } by {
                    let h = sec * 6 + 5;
                    let v = sec * 6 + 4;
                    assert(before.ramp_powers@[m] == old(self).ramp_powers@[m] || bump.offset_of(
                        m / 6,
                    ) < i);
                    if m == h && horizontal {
                        assert(bump.coefficient_at(m / 6) == Some(coeff));
                    } else if m == v && vertical {
                        assert(bump.coefficient_at(m / 6) == Some(coeff));
                    } else {
                        assert(self.ramp_powers@[m] == before.ramp_powers@[m]);
                        assert(self.magnets@[m] == before.magnets@[m]);
                        if m / 6 == sec {
                            assert(old(self).bump_coefficient_for(m, horizontal, vertical) is None);
                        }
                    }
                }
            }
            i += 1;
        }
        if edit == TrimEdit::Zero {
            self.message = flash(Notice::ZeroedBumpTrims { ramp: self.selected_ramp });
        }
    }

    fn requested(&self, idx: usize, coeff: i64, edit: TrimEdit) -> (r: i64)
        requires
            self.wf(),
            idx < TOTAL_ELEMENTS,
        ensures
            r == self.trim_request(idx as int, coeff, edit),
    {
        let current = self.ramp_powers[idx].points[self.selected_ramp];
        match edit {
            TrimEdit::Raise => plus(current, scale(self.adjust_speed, coeff, 1)),
            TrimEdit::Lower => plus(current, negate(scale(self.adjust_speed, coeff, 1))),
            TrimEdit::Zero => 0,
        }
    }

    /// The selected checkpoint of the selected magnet, one step up or down.
    pub open spec fn stepped_value(&self, up: bool) -> i64 {
        plus(
            self.ramp_powers@[self.selected as int].points@[self.selected_ramp as int],
            if up {
                self.adjust_speed
            } else {
                negate(self.adjust_speed)
            },
        )
    }

    /// Whether `after` is the game after the player's command `command`.
    pub open spec fn obeys_to(&self, command: BeamCommand, after: &BeamGame) -> bool {
        match command {
            BeamCommand::Reset => self.resets_to(after),
            BeamCommand::TogglePause => *after == (BeamGame {
                paused: if self.beam_lost || self.beam_completed {
                    self.paused
                } else {
                    !self.paused
                },
                ..*self
            }),
            BeamCommand::Inject => self.injects_to(after),
            BeamCommand::SelectPrevious => *after == (BeamGame {
                selected: if self.selected == 0 {
                    (TOTAL_ELEMENTS - 1) as usize
                } else {
                    (self.selected - 1) as usize
                },
                ..*self
            }),
            BeamCommand::SelectNext => *after == (BeamGame {
                selected: ((self.selected + 1) % (TOTAL_ELEMENTS as int)) as usize,
                ..*self
            }),
            BeamCommand::EditBump { horizontal, vertical, edit } => self.bump_edits_to(
                horizontal,
                vertical,
                edit,
                after,
            ),
            BeamCommand::ShiftBump { forward } => match self.bump {
                Some(b) => {
                    let moved = if forward {
                        b.shifted_forward()
                    } else {
                        b.shifted_back()
                    };
                    *after == (BeamGame {
                        bump: Some(moved),
                        message: flash(Notice::BumpMoved { bump: moved }),
                        ..*self
                    })
                },
                None => *after == *self,
            },
            BeamCommand::AdjustSelected { up } => self.after_ramp_edit(
                self.selected,
                self.stepped_value(up),
                after,
            ),
            BeamCommand::Coarser => *after == (BeamGame {
                adjust_speed: coarser(self.adjust_speed),
                ..*self
            }),
            BeamCommand::Finer => *after == (BeamGame {
                adjust_speed: finer(self.adjust_speed, MIN_ADJUST_SPEED),
                ..*self
            }),
            BeamCommand::CopySection => self.after_copy(after),
            BeamCommand::NextSection => *after == (BeamGame {
                selected: if self.bump is None {
                    (((self.selected_section() + 1) % (NUM_SECTIONS as int)) * ELEMENTS_PER_CELL
                        + self.selected_element()) as usize
                } else {
                    self.selected
                },
                ..*self
            }),
            BeamCommand::PrevSection => *after == (BeamGame {
                selected: if self.bump is None {
                    ((if self.selected_section() == 0 {
                        NUM_SECTIONS - 1
                    } else {
                        self.selected_section() - 1
                    }) * ELEMENTS_PER_CELL + self.selected_element()) as usize
                } else {
                    self.selected
                },
                ..*self
            }),
            BeamCommand::ZeroSelected => self.after_ramp_edit(self.selected, 0, after),
            BeamCommand::SelectRamp { index } => if index < NUM_RAMPS {
                &&& after.magnets@ == powered_from(self.magnets@, self.ramp_powers@, index as int)
                &&& *after == (BeamGame {
                    magnets: after.magnets,
                    selected_ramp: index,
                    message: flash(Notice::RampSelected { ramp: index }),
                    ..*self
                })
            } else {
                *after == *self
            },
            BeamCommand::CycleBump => {
                let next = spec_next_bump_mode(self.bump, self.selected_section());
                *after == (BeamGame {
                    bump: next,
                    message: match next {
                        Some(b) => flash(Notice::BumpSelected { bump: b }),
                        None => flash(Notice::BumpOff),
                    },
                    ..*self
                })
            },
            BeamCommand::ToggleDifficulty => if self.beam_running {
                *after == *self
            } else {
                *after == (BeamGame {
                    difficulty: self.difficulty.toggle(),
                    message: flash(Notice::DifficultySet { difficulty: self.difficulty.toggle() }),
                    ..*self
                })
            },
        }
    }

    /// Carries out one command of the player. A command that does not apply
    /// in the state the game is in, or that names what does not exist,
    /// changes nothing.
    #[verifier::rlimit(50)]
    pub fn apply_command(&mut self, command: BeamCommand)
        requires
            old(self).wf(),
        ensures
            final(self).wf(),
            old(self).obeys_to(command, final(self)),
    {
        match command {
            BeamCommand::Reset => self.reset(),
            BeamCommand::TogglePause => {
                if !self.beam_lost && !self.beam_completed {
                    self.paused = !self.paused;
                }
            },
            BeamCommand::Inject => self.inject(),
            BeamCommand::SelectPrevious => {
                if self.selected == 0 {
                    self.selected = TOTAL_ELEMENTS - 1;
                } else {
                    self.selected -= 1;
                }
            },
            BeamCommand::SelectNext => {
                self.selected = (self.selected + 1) % TOTAL_ELEMENTS;
            },
            BeamCommand::EditBump { horizontal, vertical, edit } => self.edit_bump(
                horizontal,
                vertical,
                edit,
            ),
            BeamCommand::ShiftBump { forward } => {
                match self.bump {
                    Some(b) => {
                        let moved = if forward {
                            b.shifted_forward()
                        } else {
                            b.shifted_back()
                        };
                        self.bump = Some(moved);
                        self.message = flash(Notice::BumpMoved { bump: moved });
                    },
                    None => {},
                }
            },
            BeamCommand::AdjustSelected { up } => {
                let delta = if up {
                    self.adjust_speed
                } else {
                    negate(self.adjust_speed)
                };
                let sel = self.selected;
                self.adjust_ramp_power(sel, delta);
            },
            BeamCommand::Coarser => {
                self.adjust_speed = coarser(self.adjust_speed);
            },
            BeamCommand::Finer => {
                self.adjust_speed = finer(self.adjust_speed, MIN_ADJUST_SPEED);
            },
            BeamCommand::CopySection => self.copy_to_all_sections(),
            BeamCommand::NextSection => {
                if self.bump.is_none() {
                    self.next_section();
                }
            },
            BeamCommand::PrevSection => {
                if self.bump.is_none() {
                    self.prev_section();
                }
            },
            BeamCommand::ZeroSelected => {
                let sel = self.selected;
                self.set_ramp_power(sel, 0);
            },
            BeamCommand::SelectRamp { index } => {
                if index < NUM_RAMPS {
                    self.selected_ramp = index;
                    self.sync_display_from_ramp();
                    self.message = flash(Notice::RampSelected { ramp: index });
                }
            },
            BeamCommand::CycleBump => {
                let next = next_bump_mode(self.bump, self.selected_section());
                self.bump = next;
                self.message = match next {
                    Some(b) => flash(Notice::BumpSelected { bump: b }),
                    None => flash(Notice::BumpOff),
                };
            },
            BeamCommand::ToggleDifficulty => {
                if !self.beam_running {
                    self.difficulty = self.difficulty.toggle();
                    self.message = flash(Notice::DifficultySet { difficulty: self.difficulty });
                }
            },
        }
    }

    /// The command that `key` gives while the game is running and not
    /// paused.
    pub open spec fn spec_playing_command(&self, key: Key) -> Option<BeamCommand> {
        let in_bump = self.bump is Some;
        if key == Key::Char(' ') {
            Some(BeamCommand::Inject)
        } else if key == Key::Up {
            Some(
                if in_bump {
                    BeamCommand::EditBump { horizontal: true, vertical: true, edit: TrimEdit::Raise }
                } else {
                    BeamCommand::SelectPrevious
                },
            )
        } else if key == Key::Down {
            Some(
                if in_bump {
                    BeamCommand::EditBump { horizontal: true, vertical: true, edit: TrimEdit::Lower }
                } else {
                    BeamCommand::SelectNext
                },
            )
        } else if key == Key::Left {
            Some(
                if in_bump {
                    BeamCommand::ShiftBump { forward: false }
                } else {
                    BeamCommand::AdjustSelected { up: false }
                },
            )
        } else if key == Key::Right {
            Some(
                if in_bump {
                    BeamCommand::ShiftBump { forward: true }
                } else {
                    BeamCommand::AdjustSelected { up: true }
                },
            )
        } else if key.is_letter('w', 'W') {
            Some(BeamCommand::EditBump { horizontal: true, vertical: false, edit: TrimEdit::Raise })
        } else if key.is_letter('s', 'S') {
            Some(BeamCommand::EditBump { horizontal: true, vertical: false, edit: TrimEdit::Lower })
        } else if key.is_letter('e', 'E') {
            Some(BeamCommand::EditBump { horizontal: false, vertical: true, edit: TrimEdit::Raise })
        } else if key.is_letter('q', 'Q') {
            Some(BeamCommand::EditBump { horizontal: false, vertical: true, edit: TrimEdit::Lower })
        } else if key.is_letter('+', '=') {
            Some(BeamCommand::Coarser)
        } else if key.is_letter('-', '_') {
            Some(BeamCommand::Finer)
        } else if key.is_letter('c', 'C') {
            Some(BeamCommand::CopySection)
        } else if key == Key::Char(']') {
            Some(BeamCommand::NextSection)
        } else if key == Key::Char('[') {
            Some(BeamCommand::PrevSection)
        } else if key.is_letter('z', 'Z') {
            Some(
                if in_bump {
                    BeamCommand::EditBump { horizontal: true, vertical: true, edit: TrimEdit::Zero }
                } else {
                    BeamCommand::ZeroSelected
                },
            )
        } else if key.digit() is Some {
            Some(BeamCommand::SelectRamp { index: key.digit()->0 })
        } else if key.is_letter('b', 'B') {
            Some(BeamCommand::CycleBump)
        } else if key.is_letter('d', 'D') {
            Some(BeamCommand::ToggleDifficulty)
        } else {
            None
        }
    }

    /// The command that `key` gives in the state the game is in.
    ///
    /// `r` starts over and `p` pauses at any time. Once the game is over,
    /// Enter and the space bar start over and no other key does anything. A
    /// paused game reacts to no other key.
    pub open spec fn spec_command_for(&self, key: Key) -> Option<BeamCommand> {
        if key.is_letter('r', 'R') {
            Some(BeamCommand::Reset)
        } else if key.is_letter('p', 'P') {
            Some(BeamCommand::TogglePause)
        } else if self.beam_lost || self.beam_completed {
            if key == Key::Enter || key == Key::Char(' ') {
                Some(BeamCommand::Reset)
            } else {
                None
            }
        } else if self.paused {
            None
        } else {
            self.spec_playing_command(key)
        }
    }

    fn playing_command(&self, key: Key) -> (r: Option<BeamCommand>)
        ensures
            r == self.spec_playing_command(key),
    {
        let in_bump = self.bump.is_some();
        match key {
            Key::Char(' ') => Some(BeamCommand::Inject),
            Key::Up => Some(
                if in_bump {
                    BeamCommand::EditBump { horizontal: true, vertical: true, edit: TrimEdit::Raise }
                } else {
                    BeamCommand::SelectPrevious
                },
            ),
            Key::Down => Some(
                if in_bump {
                    BeamCommand::EditBump { horizontal: true, vertical: true, edit: TrimEdit::Lower }
                } else {
                    BeamCommand::SelectNext
                },
            ),
            Key::Left => Some(
                if in_bump {
                    BeamCommand::ShiftBump { forward: false }
                } else {
                    BeamCommand::AdjustSelected { up: false }
                },
            ),
            Key::Right => Some(
                if in_bump {
                    BeamCommand::ShiftBump { forward: true }
                } else {
                    BeamCommand::AdjustSelected { up: true }
                },
            ),
            _ => {
                if key.is_letter('w', 'W') {
                    Some(
                        BeamCommand::EditBump {
                            horizontal: true,
                            vertical: false,
                            edit: TrimEdit::Raise,
                        },
                    )
                } else if key.is_letter('s', 'S') {
                    Some(
                        BeamCommand::EditBump {
                            horizontal: true,
                            vertical: false,
                            edit: TrimEdit::Lower,
                        },
                    )
                } else if key.is_letter('e', 'E') {
                    Some(
                        BeamCommand::EditBump {
                            horizontal: false,
                            vertical: true,
                            edit: TrimEdit::Raise,
                        },
                    )
                } else if key.is_letter('q', 'Q') {
                    Some(
                        BeamCommand::EditBump {
                            horizontal: false,
                            vertical: true,
                            edit: TrimEdit::Lower,
                        },
                    )
                } else if key.is_letter('+', '=') {
                    Some(BeamCommand::Coarser)
                } else if key.is_letter('-', '_') {
                    Some(BeamCommand::Finer)
                } else if key.is_letter('c', 'C') {
                    Some(BeamCommand::CopySection)
                } else if key.is_letter(']', ']') {
                    Some(BeamCommand::NextSection)
                } else if key.is_letter('[', '[') {
                    Some(BeamCommand::PrevSection)
                } else if key.is_letter('z', 'Z') {
                    Some(
                        if in_bump {
                            BeamCommand::EditBump {
                                horizontal: true,
                                vertical: true,
                                edit: TrimEdit::Zero,
                            }
                        } else {
                            BeamCommand::ZeroSelected
                        },
                    )
                } else {
                    match key.digit() {
                        Some(index) => Some(BeamCommand::SelectRamp { index }),
                        None => if key.is_letter('b', 'B') {
                            Some(BeamCommand::CycleBump)
                        } else if key.is_letter('d', 'D') {
                            Some(BeamCommand::ToggleDifficulty)
                        } else {
                            None
                        },
                    }
                }
            },
        }
    }

    /// The command that `key` gives in the state the game is in.
    #[verifier::when_used_as_spec(spec_command_for)]
    pub fn command_for(&self, key: Key) -> (r: Option<BeamCommand>)
        ensures
            r == self.spec_command_for(key),
    {
        if key.is_letter('r', 'R') {
            Some(BeamCommand::Reset)
        } else if key.is_letter('p', 'P') {
            Some(BeamCommand::TogglePause)
        } else if self.beam_lost || self.beam_completed {
            match key {
                Key::Enter | Key::Char(' ') => Some(BeamCommand::Reset),
                _ => None,
            }
        } else if self.paused {
            None
        } else {
            self.playing_command(key)
        }
    }

    /// Reacts to a key: carries out the command that the key gives in the
    /// state the game is in, if it gives one.
    pub fn handle_input(&mut self, key: Key)
        requires
            old(self).wf(),
        ensures
            final(self).wf(),
            match old(self).command_for(key) {
                Some(command) => old(self).obeys_to(command, final(self)),
                None => *final(self) == *old(self),
            },
    {
        match self.command_for(key) {
            Some(command) => self.apply_command(command),
            None => {},
        }
    }
}

/// A sub-step never lets the accumulated losses fall, and leaves the game
/// well-formed.
#[verifier::rlimit(50)]
pub proof fn lemma_step_keeps_losses(before: BeamGame, after: BeamGame)
    requires
        before.wf(),
        before.turns_completed < u32::MAX,
        before.steps_to(&after),
    ensures
        after.wf(),
        before.beam_losses <= after.beam_losses,
{
    let losses = before.losses_after_element();
    assert(before.beam_losses <= losses <= crate::fixed::LIMIT);
    let beam = before.beam_after_element();
    let crossing = (before.beam_section, beam.position, beam.size);
    crate::history::lemma_recorded_keeps_order(
        before.trail@,
        crossing,
        crate::beam::TRAIL_CAPACITY as int,
    );
    crate::history::lemma_recorded_keeps_order(
        before.turn_positions@,
        (beam.position, beam.y_position),
        crate::beam::TURN_POSITIONS as int,
    );
    match before.step_result() {
        Step::Waiting => {
            assert(after.beam_losses == before.beam_losses);
        },
        Step::HitWall => {
            assert(after.beam_losses == before.beam_losses);
        },
        Step::LossesExceeded => {
            assert(after.beam_losses == losses);
        },
        Step::HitRestriction { .. } => {
            assert(after.beam_losses == losses);
        },
        Step::Advanced => {
            assert(after.beam_losses == losses);
        },
        Step::SectionDone => {
            assert(after.beam_losses == losses);
            assert(after.beam == beam);
            assert(after.trail@.len() <= crate::beam::TRAIL_CAPACITY);
        },
        Step::TurnDone => {
            assert(after.beam_losses == losses);
            assert(after.beam == beam);
            assert(after.trail@.len() <= crate::beam::TRAIL_CAPACITY);
            assert(after.turn_positions@.len() <= crate::beam::TURN_POSITIONS);
        },
    }
}

/// However many sub-steps a beam runs, its accumulated losses never fall.
#[verifier::rlimit(50)]
pub proof fn lemma_run_keeps_losses(before: BeamGame, n: nat, after: BeamGame)
    requires
        before.wf(),
        before.runs_to(n, &after),
    ensures
        after.wf(),
        before.beam_losses <= after.beam_losses,
    decreases n,
{
    if n == 0 || before.beam_lost || before.beam_completed {
    } else {
        let mid = choose|mid: BeamGame| #[trigger]
            before.steps_to(&mid) && mid.runs_to((n - 1) as nat, &after);
        lemma_step_keeps_losses(before, mid);
        lemma_run_keeps_losses(mid, (n - 1) as nat, after);
    }
}

/// From one tick of the host to the next the accumulated losses never fall.
#[verifier::rlimit(50)]
pub proof fn lemma_tick_keeps_losses(before: BeamGame, after: BeamGame)
    requires
        before.wf(),
        before.tick < u64::MAX,
        before.updates_to(&after),
    ensures
        before.beam_losses <= after.beam_losses,
{
    if !(before.paused || before.beam_lost || before.beam_completed) && before.beam_running {
        let (start, ran) = choose|start: BeamGame, ran: BeamGame|
            {
                &&& before.powers_up_to(&start)
                &&& #[trigger] start.runs_to(STEPS_PER_TICK as nat, &ran)
                &&& if (before.tick + 1) % (SAMPLE_EVERY as int) == 0 {
                    ran.samples_to(&after)
                } else {
                    after == ran
                }
            };
        assert(start.magnets@.len() == before.magnets@.len());
        assert(start.wf());
        lemma_run_keeps_losses(start, STEPS_PER_TICK as nat, ran);
    }
}

/// No command but injection and starting over touches the accumulated
/// losses; injection, where it acts, and starting over bring them to zero.
#[verifier::rlimit(50)]
pub proof fn lemma_commands_and_losses(before: BeamGame, command: BeamCommand, after: BeamGame)
    requires
        before.wf(),
        before.obeys_to(command, &after),
    ensures
        command != BeamCommand::Reset && command != BeamCommand::Inject ==> after.beam_losses
            == before.beam_losses,
        command == BeamCommand::Reset ==> after.beam_losses == 0,
        command == BeamCommand::Inject ==> after.beam_losses == if before.can_inject() {
            0
        } else {
            before.beam_losses
        },
{
}

/// A beam that is lost or stored stays so: once the game is over, no tick
/// and no command but starting over moves the beam or changes what has been
/// counted.
#[verifier::rlimit(50)]
pub proof fn lemma_game_over_is_final(before: BeamGame, after: BeamGame, command: BeamCommand)
    requires
        before.wf(),
        before.spec_is_game_over(),
        before.updates_to(&after) || (command != BeamCommand::Reset && before.obeys_to(
            command,
            &after,
        )),
    ensures
        after.beam_lost == before.beam_lost,
        after.beam_completed == before.beam_completed,
        after.beam == before.beam,
        after.turns_completed == before.turns_completed,
        after.tick == before.tick,
{
}

} // verus!
