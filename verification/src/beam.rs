//! The storage-ring game: a separated-function ring of quadrupoles, dipoles
//! and trims whose supplies the player ramps, turn by turn, while the beam
//! goes round.

use vstd::prelude::*;
use crate::bump::{BumpAxis, BumpConfig};
use crate::controls::{Difficulty, MAX_ADJUST_SPEED};
use crate::fixed::{
    at_least, at_most, magnitude, minus, plus, scale, times, LIMIT, ONE,
};
use crate::history::{record, recorded};
use crate::lattice::{
    build_magnets, is_magnet_ring, Magnet, MagnetType, ELEMENTS_PER_CELL, NUM_SECTIONS,
    TOTAL_ELEMENTS,
};
use crate::loss::{accumulate, hits_wall, step_loss, MAX_LOSSES};
use crate::notice::{flash, Flash, Notice};
use crate::ramp::{Ramp, NUM_RAMPS};
use crate::stability::{spec_stability, stability};

verus! {

/// The supply value at which a dipole bends the beam exactly onto the
/// design orbit.
pub const DESIGN_DIPOLE_POWER: i64 = 130_900;

/// Number of turns after which the beam counts as stored.
pub const GOAL_TURNS: u32 = 5;

/// Number of samples that a display history keeps.
pub const MAX_HISTORY: usize = 60;

/// Number of section crossings that the trail keeps.
pub const TRAIL_CAPACITY: usize = 72;

/// Number of turn-end positions that are kept.
pub const TURN_POSITIONS: usize = 20;

/// How far one sub-step carries the beam through an element, in hundredths.
pub const PROGRESS_STEP: u32 = 40;

/// Size of the beam at injection.
pub const INJECTION_SIZE: i64 = 10_000_000;

/// The size beyond which a defocused beam does not grow.
pub const MAX_BEAM_SIZE: i64 = 100_000_000;

/// The size below which a focused beam does not shrink.
pub const MIN_BEAM_SIZE: i64 = ONE;

/// The finest adjustment step.
pub const MIN_ADJUST_SPEED: i64 = 1_000;

/// How far from the axis, at most, the injection target is drawn.
pub const TARGET_SPREAD: i64 = 5_000_000;

/// Rate at which a protruding edge sheds particles: this over `LOSS_DEN`.
pub const LOSS_NUM: i64 = 1;

pub const LOSS_DEN: i64 = 2;

/// A half-aperture obstacle: in its section, one side of one plane is closed.
#[derive(Clone, Copy, PartialEq, Eq, Structural, Debug)]
pub struct Restriction {
    pub section: usize,
    pub axis: BumpAxis,
    /// Whether the positive side is the closed one.
    pub positive_blocked: bool,
}

impl Restriction {
    pub open spec fn spec_label(&self) -> Seq<char> {
        match (self.axis, self.positive_blocked) {
            (BumpAxis::X, true) => "x≤0"@,
            (BumpAxis::X, false) => "x≥0"@,
            (BumpAxis::Y, true) => "y≤0"@,
            (BumpAxis::Y, false) => "y≥0"@,
        }
    }

    /// Whether a beam centred at `(x, y)` is on the closed side.
    pub open spec fn spec_check(&self, x: i64, y: i64) -> bool {
        let val = if self.axis == BumpAxis::X {
            x
        } else {
            y
        };
        if self.positive_blocked {
            val > 0
        } else {
            val < 0
        }
    }

    /// Whether a beam in `section`, centred at `(x, y)`, hits this obstacle.
    pub open spec fn blocks(&self, section: usize, x: i64, y: i64) -> bool {
        self.section == section && self.spec_check(x, y)
    }

    /// The side that stays open, as shown to the player.
    pub fn label(&self) -> (r: &'static str)
        ensures
            r@ == self.spec_label(),
    {
        match (self.axis, self.positive_blocked) {
            (BumpAxis::X, true) => "x≤0",
            (BumpAxis::X, false) => "x≥0",
            (BumpAxis::Y, true) => "y≤0",
            (BumpAxis::Y, false) => "y≥0",
        }
    }

    /// Whether a beam centred at `(x, y)` is on the closed side.
    #[verifier::when_used_as_spec(spec_check)]
    pub fn check(&self, x: i64, y: i64) -> (r: bool)
        ensures
            r == self.spec_check(x, y),
    {
        let val = match self.axis {
            BumpAxis::X => x,
            BumpAxis::Y => y,
        };
        if self.positive_blocked {
            val > 0
        } else {
            val < 0
        }
    }
}

/// Centre, angle and size of the beam in both planes, in millionths.
#[derive(Clone, Copy, PartialEq, Eq, Structural, Debug)]
pub struct BeamState {
    pub position: i64,
    pub angle: i64,
    pub size: i64,
    pub y_position: i64,
    pub y_angle: i64,
    pub y_size: i64,
}

/// A beam size after a focusing lens of strength `k`: reduced by half of
/// `|k|`, but not below `MIN_BEAM_SIZE`.
pub open spec fn focused(size: i64, k: i64) -> i64 {
    at_least(times(size, minus(ONE, scale(magnitude(k), 1, 2))), MIN_BEAM_SIZE)
}

/// A beam size after a defocusing lens of strength `k`: grown by three tenths
/// of `|k|`, but not beyond `MAX_BEAM_SIZE`.
pub open spec fn defocused(size: i64, k: i64) -> i64 {
    at_most(times(size, plus(ONE, scale(magnitude(k), 3, 10))), MAX_BEAM_SIZE)
}

impl BeamState {
    /// The beam as it is injected at `(x, y)`: at rest, with the injection
    /// size.
    pub open spec fn spec_injected(x: i64, y: i64) -> BeamState {
        BeamState {
            position: x,
            angle: 0,
            size: INJECTION_SIZE,
            y_position: y,
            y_angle: 0,
            y_size: INJECTION_SIZE,
        }
    }

    /// The beam after the kick and the drift of one magnet.
    ///
    /// A quadrupole kicks the angle in proportion to the position, toward the
    /// axis in the plane it focuses and away from it in the other, and
    /// changes the sizes. A dipole kicks by how far its power is from the
    /// design value, and is followed by a drift. A trim kicks by its power in
    /// its own plane and is followed by a drift in that plane.
    pub open spec fn kicked(&self, mag_type: MagnetType, power: i64) -> BeamState {
        match mag_type {
            MagnetType::FocusQuad => BeamState {
                angle: minus(self.angle, times(power, self.position)),
                size: focused(self.size, power),
                y_angle: plus(self.y_angle, times(power, self.y_position)),
                y_size: defocused(self.y_size, power),
                ..*self
            },
            MagnetType::DefocusQuad => BeamState {
                angle: plus(self.angle, times(power, self.position)),
                size: defocused(self.size, power),
                y_angle: minus(self.y_angle, times(power, self.y_position)),
                y_size: focused(self.y_size, power),
                ..*self
            },
            MagnetType::Dipole1 | MagnetType::Dipole2 => {
                let angle = plus(self.angle, minus(power, DESIGN_DIPOLE_POWER));
                BeamState {
                    angle,
                    position: plus(self.position, scale(angle, 2, 1)),
                    y_position: plus(self.y_position, scale(self.y_angle, 1, 2)),
                    ..*self
                }
            },
            MagnetType::VTrim => {
                let y_angle = plus(self.y_angle, power);
                BeamState { y_angle, y_position: plus(self.y_position, y_angle), ..*self }
            },
            MagnetType::HTrim => {
                let angle = plus(self.angle, power);
                BeamState { angle, position: plus(self.position, angle), ..*self }
            },
        }
    }

    /// The beam after the short drift that follows every magnet.
    pub open spec fn drifted(&self) -> BeamState {
        BeamState {
            position: plus(self.position, scale(self.angle, 1, 2)),
            y_position: plus(self.y_position, scale(self.y_angle, 3, 10)),
            ..*self
        }
    }

    /// The beam after both sizes grew by `growth`, if that is positive.
    pub open spec fn grown(&self, growth: i64) -> BeamState {
        if growth > 0 {
            BeamState {
                size: plus(self.size, growth),
                y_size: plus(self.y_size, growth),
                ..*self
            }
        } else {
            *self
        }
    }

    /// The beam after one whole element: the magnet, the drift behind it, and
    /// the growth that the difficulty imposes.
    pub open spec fn spec_through(&self, mag_type: MagnetType, power: i64, growth: i64) -> BeamState {
        self.kicked(mag_type, power).drifted().grown(growth)
    }

    /// The beam as it is injected at `(x, y)`.
    #[verifier::when_used_as_spec(spec_injected)]
    pub fn injected(x: i64, y: i64) -> (r: BeamState)
        ensures
            r == Self::spec_injected(x, y),
    {
        BeamState {
            position: x,
            angle: 0,
            size: INJECTION_SIZE,
            y_position: y,
            y_angle: 0,
            y_size: INJECTION_SIZE,
        }
    }

    /// Carries the beam through one element.
    #[verifier::when_used_as_spec(spec_through)]
    pub fn through(&self, mag_type: MagnetType, power: i64, growth: i64) -> (r: BeamState)
        ensures
            r == self.spec_through(mag_type, power, growth),
    {
        let mut b = *self;
        match mag_type {
            MagnetType::FocusQuad => {
                b.angle = minus(self.angle, times(power, self.position));
                b.size = at_least(
                    times(self.size, minus(ONE, scale(magnitude(power), 1, 2))),
                    MIN_BEAM_SIZE,
                );
                b.y_angle = plus(self.y_angle, times(power, self.y_position));
                b.y_size = at_most(
                    times(self.y_size, plus(ONE, scale(magnitude(power), 3, 10))),
                    MAX_BEAM_SIZE,
                );
            },
            MagnetType::DefocusQuad => {
                b.angle = plus(self.angle, times(power, self.position));
                b.size = at_most(
                    times(self.size, plus(ONE, scale(magnitude(power), 3, 10))),
                    MAX_BEAM_SIZE,
                );
                b.y_angle = minus(self.y_angle, times(power, self.y_position));
                b.y_size = at_least(
                    times(self.y_size, minus(ONE, scale(magnitude(power), 1, 2))),
                    MIN_BEAM_SIZE,
                );
            },
            MagnetType::Dipole1 | MagnetType::Dipole2 => {
                b.angle = plus(self.angle, minus(power, DESIGN_DIPOLE_POWER));
                b.position = plus(self.position, scale(b.angle, 2, 1));
                b.y_position = plus(self.y_position, scale(self.y_angle, 1, 2));
            },
            MagnetType::VTrim => {
                b.y_angle = plus(self.y_angle, power);
                b.y_position = plus(self.y_position, b.y_angle);
            },
            MagnetType::HTrim => {
                b.angle = plus(self.angle, power);
                b.position = plus(self.position, b.angle);
            },
        }
        b.position = plus(b.position, scale(b.angle, 1, 2));
        b.y_position = plus(b.y_position, scale(b.y_angle, 3, 10));
        if growth > 0 {
            b.size = plus(b.size, growth);
            b.y_size = plus(b.y_size, growth);
        }
        b
    }
}

/// Where the beam crossed into the next section: the section it left, and its
/// horizontal position and size there.
pub type TrailPoint = (usize, i64, i64);

/// The whole game: the machine, the beam, and what the player has set.
pub struct BeamGame {
    /// The magnets in ring order, each with the power in force.
    pub magnets: Vec<Magnet>,
    /// The magnet selected for editing.
    pub selected: usize,
    pub beam_running: bool,
    pub beam: BeamState,
    /// The section the beam is in.
    pub beam_section: usize,
    /// The element of that section the beam is in.
    pub beam_element: usize,
    /// How far through that element the beam is, in hundredths.
    pub beam_progress: u32,
    pub beam_lost: bool,
    /// What the beam has shed so far. Only injection brings it back to zero.
    pub beam_losses: i64,
    pub beam_completed: bool,
    pub turns_completed: u32,
    pub best_turns: u32,
    pub tick: u64,
    pub paused: bool,
    pub trail: Vec<TrailPoint>,
    /// The step by which one key press moves a supply.
    pub adjust_speed: i64,
    pub pos_history: Vec<i64>,
    pub size_history: Vec<i64>,
    pub y_pos_history: Vec<i64>,
    pub y_size_history: Vec<i64>,
    pub restrictions: Vec<Restriction>,
    pub difficulty: Difficulty,
    pub message: Option<Flash>,
    pub bump: Option<BumpConfig>,
    /// The ramp of every magnet, in ring order.
    pub ramp_powers: Vec<Ramp>,
    /// The checkpoint selected for editing.
    pub selected_ramp: usize,
    /// Where the beam is injected, and should come back to every turn.
    pub target_x: i64,
    pub target_y: i64,
    /// Where the beam was at the end of each turn.
    pub turn_positions: Vec<(i64, i64)>,
}

/// Whether no two of the restrictions stand in the same section.
pub open spec fn on_distinct_sections(restrictions: Seq<Restriction>) -> bool {
    forall|i: int, j: int|
        0 <= i < j < restrictions.len() ==> (#[trigger] restrictions[i]).section != (
        #[trigger] restrictions[j]).section
}

/// The four restrictions that `sections` and `blocked` describe: the first
/// two horizontal, the last two vertical.
pub open spec fn layout_restrictions(sections: [usize; 4], blocked: [bool; 4]) -> Seq<Restriction> {
    seq![
        Restriction { section: sections@[0], axis: BumpAxis::X, positive_blocked: blocked@[0] },
        Restriction { section: sections@[1], axis: BumpAxis::X, positive_blocked: blocked@[1] },
        Restriction { section: sections@[2], axis: BumpAxis::Y, positive_blocked: blocked@[2] },
        Restriction { section: sections@[3], axis: BumpAxis::Y, positive_blocked: blocked@[3] },
    ]
}

impl BeamGame {
    /// What every method keeps true of the game.
    pub open spec fn wf(&self) -> bool {
        &&& is_magnet_ring(self.magnets@)
        &&& self.ramp_powers@.len() == TOTAL_ELEMENTS
        &&& forall|i: int| 0 <= i < TOTAL_ELEMENTS ==> (#[trigger] self.ramp_powers@[i]).wf()
        &&& self.selected < TOTAL_ELEMENTS
        &&& self.selected_ramp < NUM_RAMPS
        &&& self.beam_section < NUM_SECTIONS
        &&& self.beam_element < ELEMENTS_PER_CELL
        &&& self.beam_progress < 100
        &&& 0 <= self.beam_losses <= LIMIT
        &&& self.beam_completed || self.turns_completed < GOAL_TURNS
        &&& self.turns_completed <= self.best_turns
        &&& MIN_ADJUST_SPEED <= self.adjust_speed <= MAX_ADJUST_SPEED
        &&& match self.bump {
            Some(b) => b.wf(),
            None => true,
        }
        &&& self.trail@.len() <= TRAIL_CAPACITY
        &&& self.turn_positions@.len() <= TURN_POSITIONS
        &&& self.pos_history@.len() <= MAX_HISTORY
        &&& self.size_history@.len() <= MAX_HISTORY
        &&& self.y_pos_history@.len() <= MAX_HISTORY
        &&& self.y_size_history@.len() <= MAX_HISTORY
    }

    /// A game that has just been set up: every supply off, no beam, nothing
    /// recorded.
    pub open spec fn is_fresh(&self) -> bool {
        &&& self.wf()
        &&& forall|i: int| 0 <= i < TOTAL_ELEMENTS ==> (#[trigger] self.magnets@[i]).power == 0
        &&& forall|i: int, j: int|
            0 <= i < TOTAL_ELEMENTS && 0 <= j < NUM_RAMPS ==> #[trigger] self.ramp_powers@[i].points@[j]
                == 0
        &&& self.selected == 0
        &&& !self.beam_running
        &&& self.beam == BeamState::spec_injected(0, 0)
        &&& self.beam_section == 0
        &&& self.beam_element == 0
        &&& self.beam_progress == 0
        &&& !self.beam_lost
        &&& self.beam_losses == 0
        &&& !self.beam_completed
        &&& self.turns_completed == 0
        &&& self.best_turns == 0
        &&& self.tick == 0
        &&& !self.paused
        &&& self.trail@.len() == 0
        &&& self.adjust_speed == 10_000
        &&& self.pos_history@.len() == 0
        &&& self.size_history@.len() == 0
        &&& self.y_pos_history@.len() == 0
        &&& self.y_size_history@.len() == 0
        &&& self.difficulty == Difficulty::Easy
        &&& self.message is None
        &&& self.bump is None
        &&& self.selected_ramp == 0
        &&& self.turn_positions@.len() == 0
    }

    /// A fresh game with the given obstacles and injection target. The first
    /// two restrictions are horizontal, the last two vertical.
    #[verifier::rlimit(50)]
    pub fn with_layout(sections: [usize; 4], blocked: [bool; 4], target_x: i64, target_y: i64) -> (game:
        BeamGame)
        ensures
            game.is_fresh(),
            game.restrictions@ == layout_restrictions(sections, blocked),
            game.target_x == target_x,
            game.target_y == target_y,
    {
        let magnets = build_magnets();
        let mut ramp_powers: Vec<Ramp> = Vec::new();
        let mut i: usize = 0;
        while i < TOTAL_ELEMENTS
            invariant
                i <= TOTAL_ELEMENTS,
                ramp_powers@.len() == i,
                forall|k: int| 0 <= k < i ==> (#[trigger] ramp_powers@[k]).wf(),
                forall|k: int, j: int|
                    0 <= k < i && 0 <= j < NUM_RAMPS ==> #[trigger] ramp_powers@[k].points@[j] == 0,
            decreases TOTAL_ELEMENTS - i,
        {
            ramp_powers.push(Ramp::flat(0));
            i += 1;
        }
        let mut restrictions: Vec<Restriction> = Vec::new();
        restrictions.push(
            Restriction { section: sections[0], axis: BumpAxis::X, positive_blocked: blocked[0] },
        );
        restrictions.push(
            Restriction { section: sections[1], axis: BumpAxis::X, positive_blocked: blocked[1] },
        );
        restrictions.push(
            Restriction { section: sections[2], axis: BumpAxis::Y, positive_blocked: blocked[2] },
        );
        restrictions.push(
            Restriction { section: sections[3], axis: BumpAxis::Y, positive_blocked: blocked[3] },
        );
        assert(restrictions@ =~= layout_restrictions(sections, blocked));
        BeamGame {
            magnets,
            selected: 0,
            beam_running: false,
            beam: BeamState::injected(0, 0),
            beam_section: 0,
            beam_element: 0,
            beam_progress: 0,
            beam_lost: false,
            beam_losses: 0,
            beam_completed: false,
            turns_completed: 0,
            best_turns: 0,
            tick: 0,
            paused: false,
            trail: Vec::new(),
            adjust_speed: 10_000,
            pos_history: Vec::new(),
            size_history: Vec::new(),
            y_pos_history: Vec::new(),
            y_size_history: Vec::new(),
            restrictions,
            difficulty: Difficulty::Easy,
            message: None,
            bump: None,
            ramp_powers,
            selected_ramp: 0,
            target_x,
            target_y,
            turn_positions: Vec::new(),
        }
    }
}

/// The first of `restrictions`, from place `from` on, that a beam in `section`
/// centred at `(x, y)` hits.
pub open spec fn first_blocking(
    restrictions: Seq<Restriction>,
    section: usize,
    x: i64,
    y: i64,
    from: int,
) -> Option<int>
    decreases restrictions.len() - from,
{
    if from < 0 || from >= restrictions.len() {
        None
    } else if restrictions[from].blocks(section, x, y) {
        Some(from)
    } else {
        first_blocking(restrictions, section, x, y, from + 1)
    }
}

/// How one sub-step ended.
#[derive(Clone, Copy, PartialEq, Eq, Structural, Debug)]
pub enum Step {
    /// The beam moved on within its element; nothing else happened.
    Waiting,
    /// The beam passed an element and left the aperture.
    HitWall,
    /// The beam passed an element and its losses reached the limit.
    LossesExceeded,
    /// The beam passed an element and hit the restriction of this index.
    HitRestriction { index: usize },
    /// The beam passed an element and entered the next of the same section.
    Advanced,
    /// The beam passed the last element of a section.
    SectionDone,
    /// The beam passed the last element of the ring.
    TurnDone,
}

impl BeamGame {
    /// The place in the ring of the element that the beam is in.
    pub open spec fn magnet_index(&self) -> int {
        self.beam_section * ELEMENTS_PER_CELL + self.beam_element
    }

    /// The beam after the element that it is in.
    pub open spec fn beam_after_element(&self) -> BeamState {
        let m = self.magnets@[self.magnet_index()];
        self.beam.through(m.mag_type, m.power, self.difficulty.size_growth_rate())
    }

    /// The accumulated losses after the element that the beam is in.
    pub open spec fn losses_after_element(&self) -> i64 {
        let b = self.beam_after_element();
        accumulate(
            self.beam_losses,
            step_loss(b.position, b.size, b.y_position, b.y_size, LOSS_NUM, LOSS_DEN),
        )
    }

    /// Whether this sub-step completes the element that the beam is in.
    pub open spec fn element_due(&self) -> bool {
        self.beam_progress + PROGRESS_STEP >= 100
    }

    /// The restriction that the beam hits behind the element it is in.
    pub open spec fn restriction_hit(&self) -> Option<int> {
        let b = self.beam_after_element();
        first_blocking(self.restrictions@, self.beam_section, b.position, b.y_position, 0)
    }

    /// How the next sub-step ends. The checks come in this order: aperture,
    /// accumulated losses, restrictions.
    pub open spec fn step_result(&self) -> Step {
        let b = self.beam_after_element();
        if !self.element_due() {
            Step::Waiting
        } else if hits_wall(b.position, b.y_position) {
            Step::HitWall
        } else if self.losses_after_element() >= MAX_LOSSES {
            Step::LossesExceeded
        } else if self.restriction_hit() is Some {
            Step::HitRestriction { index: self.restriction_hit()->0 as usize }
        } else if self.beam_element + 1 < ELEMENTS_PER_CELL {
            Step::Advanced
        } else if self.beam_section + 1 < NUM_SECTIONS {
            Step::SectionDone
        } else {
            Step::TurnDone
        }
    }

    /// The notice that tells of the restriction of place `index`.
    pub open spec fn restriction_notice(&self, index: int) -> Notice {
        let r = self.restrictions@[index];
        Notice::HitRestriction {
            section: r.section,
            axis: r.axis,
            positive_blocked: r.positive_blocked,
        }
    }

    /// Whether `after` is the game one sub-step after this one.
    ///
    /// Two sub-steps out of three only move the beam on within its element.
    /// The third carries it through the element and then checks, in this
    /// order, the aperture, the accumulated losses and the restrictions of
    /// the section; any of them ends the beam. Otherwise the beam enters the
    /// next element. Leaving a section adds to the trail; leaving the last
    /// section completes a turn.
    pub open spec fn steps_to(&self, after: &BeamGame) -> bool {
        match self.step_result() {
            Step::Waiting => *after == (BeamGame {
                beam_progress: (self.beam_progress + PROGRESS_STEP) as u32,
                ..*self
            }),
            Step::HitWall => *after == (BeamGame {
                beam_progress: 0,
                beam: self.beam_after_element(),
                beam_lost: true,
                message: flash(Notice::HitWall),
                ..*self
            }),
            Step::LossesExceeded => *after == (BeamGame {
                beam_progress: 0,
                beam: self.beam_after_element(),
                beam_losses: self.losses_after_element(),
                beam_lost: true,
                message: flash(Notice::LossesExceeded),
                ..*self
            }),
            Step::HitRestriction { index } => *after == (BeamGame {
                beam_progress: 0,
                beam: self.beam_after_element(),
                beam_losses: self.losses_after_element(),
                beam_lost: true,
                message: flash(self.restriction_notice(index as int)),
                ..*self
            }),
            Step::Advanced => *after == (BeamGame {
                beam_progress: 0,
                beam: self.beam_after_element(),
                beam_losses: self.losses_after_element(),
                beam_element: (self.beam_element + 1) as usize,
                ..*self
            }),
            Step::SectionDone => {
                &&& after.trail@ == recorded(
                    self.trail@,
                    (
                        self.beam_section,
                        after.beam.position,
                        after.beam.size,
                    ),
                    TRAIL_CAPACITY as int,
                )
                &&& *after == (BeamGame {
                    beam_progress: 0,
                    beam: self.beam_after_element(),
                    beam_losses: self.losses_after_element(),
                    beam_element: 0,
                    beam_section: (self.beam_section + 1) as usize,
                    trail: after.trail,
                    ..*self
                })
            },
            Step::TurnDone => {
                &&& after.trail@ == recorded(
                    self.trail@,
                    (
                        self.beam_section,
                        after.beam.position,
                        after.beam.size,
                    ),
                    TRAIL_CAPACITY as int,
                )
                &&& after.turn_positions@ == recorded(
                    self.turn_positions@,
                    (after.beam.position, after.beam.y_position),
                    TURN_POSITIONS as int,
                )
                &&& *after == (BeamGame {
                    beam_progress: 0,
                    beam: self.beam_after_element(),
                    beam_losses: self.losses_after_element(),
                    beam_element: 0,
                    beam_section: 0,
                    turns_completed: (self.turns_completed + 1) as u32,
                    best_turns: if self.turns_completed + 1 > self.best_turns {
                        (self.turns_completed + 1) as u32
                    } else {
                        self.best_turns
                    },
                    beam_completed: self.beam_completed || self.turns_completed + 1
                        >= GOAL_TURNS,
                    trail: after.trail,
                    turn_positions: after.turn_positions,
                    ..*self
                })
            },
        }
    }

    /// Carries the beam through the element it is in, with the power that
    /// the magnet has now. Changes nothing but the beam.
    pub fn apply_element(&mut self)
        requires
            old(self).wf(),
        ensures
            *final(self) == (BeamGame { beam: old(self).beam_after_element(), ..*old(self) }),
    {
        let idx = self.beam_section * ELEMENTS_PER_CELL + self.beam_element;
        let magnet = self.magnets[idx];
        self.beam = self.beam.through(
            magnet.mag_type,
            magnet.power,
            self.difficulty.size_growth_rate(),
        );
    }

    fn find_blocking(&self) -> (r: Option<usize>)
        ensures
            match r {
                Some(i) => first_blocking(
                    self.restrictions@,
                    self.beam_section,
                    self.beam.position,
                    self.beam.y_position,
                    0,
                ) == Some(i as int) && i < self.restrictions@.len(),
                None => first_blocking(
                    self.restrictions@,
                    self.beam_section,
                    self.beam.position,
                    self.beam.y_position,
                    0,
                ) is None,
            },
    {
        let mut i: usize = 0;
        while i < self.restrictions.len()
            invariant
                i <= self.restrictions@.len(),
                first_blocking(
                    self.restrictions@,
                    self.beam_section,
                    self.beam.position,
                    self.beam.y_position,
                    0,
                ) == first_blocking(
                    self.restrictions@,
                    self.beam_section,
                    self.beam.position,
                    self.beam.y_position,
                    i as int,
                ),
            decreases self.restrictions@.len() - i,
        {
            let r = self.restrictions[i];
            if r.section == self.beam_section && r.check(self.beam.position, self.beam.y_position) {
                return Some(i);
            }
            i += 1;
        }
        None
    }

    /// Advances the beam by one sub-step and says how the sub-step ended.
    #[verifier::rlimit(50)]
    pub fn advance_beam(&mut self) -> (r: Step)
        requires
            old(self).wf(),
            old(self).turns_completed < u32::MAX,
        ensures
            final(self).wf(),
            r == old(self).step_result(),
            old(self).beam_losses <= final(self).beam_losses,
            old(self).steps_to(final(self)),
    {
        self.beam_progress += PROGRESS_STEP;
        if self.beam_progress < 100 {
            return Step::Waiting;
        }
        self.beam_progress = 0;
        self.apply_element();

        if hits_wall(self.beam.position, self.beam.y_position) {
            self.beam_lost = true;
            self.message = flash(Notice::HitWall);
            return Step::HitWall;
        }
        let shed = step_loss(
            self.beam.position,
            self.beam.size,
            self.beam.y_position,
            self.beam.y_size,
            LOSS_NUM,
            LOSS_DEN,
        );
        self.beam_losses = accumulate(self.beam_losses, shed);
        if self.beam_losses >= MAX_LOSSES {
            self.beam_lost = true;
            self.message = flash(Notice::LossesExceeded);
            return Step::LossesExceeded;
        }
        match self.find_blocking() {
            Some(index) => {
                let r = self.restrictions[index];
                self.beam_lost = true;
                self.message = flash(
                    Notice::HitRestriction {
                        section: r.section,
                        axis: r.axis,
                        positive_blocked: r.positive_blocked,
                    },
                );
                return Step::HitRestriction { index };
            },
            None => {},
        }
        self.beam_element += 1;
        if self.beam_element < ELEMENTS_PER_CELL {
            return Step::Advanced;
        }
        self.beam_element = 0;
        record(
            &mut self.trail,
            (self.beam_section, self.beam.position, self.beam.size),
            TRAIL_CAPACITY,
        );
        self.beam_section += 1;
        if self.beam_section < NUM_SECTIONS {
            return Step::SectionDone;
        }
        self.beam_section = 0;
        record(
            &mut self.turn_positions,
            (self.beam.position, self.beam.y_position),
            TURN_POSITIONS,
        );
        self.turns_completed += 1;
        if self.turns_completed > self.best_turns {
            self.best_turns = self.turns_completed;
        }
        if self.turns_completed >= GOAL_TURNS {
            self.beam_completed = true;
        }
        Step::TurnDone
    }
}

/// `magnets` with the power of each taken from checkpoint `checkpoint` of
/// its ramp.
pub open spec fn powered_from(magnets: Seq<Magnet>, ramps: Seq<Ramp>, checkpoint: int) -> Seq<Magnet> {
    Seq::new(
        magnets.len(),
        |i: int| Magnet { power: ramps[i].points@[checkpoint], ..magnets[i] },
    )
}

/// The place in the ring of the magnet that stands where magnet `i` stands,
/// but in section `section`.
pub open spec fn twin_in(section: int, i: int) -> int {
    section * ELEMENTS_PER_CELL + i % (ELEMENTS_PER_CELL as int)
}

impl BeamGame {
    /// A fresh game. Four obstacles stand in four different sections drawn at
    /// random, two horizontal and two vertical, each closing a side drawn at
    /// random; the injection target is drawn from within five units of the
    /// axis in both planes.
    pub fn new() -> (game: BeamGame)
        ensures
            game.is_fresh(),
            game.restrictions@.len() == 4,
            on_distinct_sections(game.restrictions@),
            forall|i: int| 0 <= i < 4 ==> (#[trigger] game.restrictions@[i]).section < NUM_SECTIONS,
            game.restrictions@[0].axis == BumpAxis::X,
            game.restrictions@[1].axis == BumpAxis::X,
            game.restrictions@[2].axis == BumpAxis::Y,
            game.restrictions@[3].axis == BumpAxis::Y,
            -TARGET_SPREAD <= game.target_x < TARGET_SPREAD,
            -TARGET_SPREAD <= game.target_y < TARGET_SPREAD,
    {
        let draws = [
            crate::chance::random_between(0, 24) as usize,
            crate::chance::random_between(0, 23) as usize,
            crate::chance::random_between(0, 22) as usize,
            crate::chance::random_between(0, 21) as usize,
        ];
        let sections = crate::chance::pick_sections(draws);
        let blocked = [
            crate::chance::random_between(0, 2) == 1,
            crate::chance::random_between(0, 2) == 1,
            crate::chance::random_between(0, 2) == 1,
            crate::chance::random_between(0, 2) == 1,
        ];
        let target_x = crate::chance::random_between(-TARGET_SPREAD, TARGET_SPREAD);
        let target_y = crate::chance::random_between(-TARGET_SPREAD, TARGET_SPREAD);
        BeamGame::with_layout(sections, blocked, target_x, target_y)
    }

    /// The section of the selected magnet.
    pub open spec fn spec_selected_section(&self) -> usize {
        self.selected / ELEMENTS_PER_CELL
    }

    /// The place of the selected magnet within its section.
    pub open spec fn spec_selected_element(&self) -> usize {
        self.selected % ELEMENTS_PER_CELL
    }

    #[verifier::when_used_as_spec(spec_selected_section)]
    pub fn selected_section(&self) -> (r: usize)
        ensures
            r == self.spec_selected_section(),
    {
        self.selected / ELEMENTS_PER_CELL
    }

    #[verifier::when_used_as_spec(spec_selected_element)]
    pub fn selected_element(&self) -> (r: usize)
        ensures
            r == self.spec_selected_element(),
    {
        self.selected % ELEMENTS_PER_CELL
    }

    /// Selects the magnet at the same place of the next section, going round
    /// the ring.
    pub fn next_section(&mut self)
        requires
            old(self).wf(),
        ensures
            final(self).wf(),
            *final(self) == (BeamGame {
                selected: (((old(self).selected_section() + 1) % (NUM_SECTIONS as int))
                    * ELEMENTS_PER_CELL + old(self).selected_element()) as usize,
                ..*old(self)
            }),
    {
        let elem = self.selected_element();
        let sec = (self.selected_section() + 1) % NUM_SECTIONS;
        self.selected = sec * ELEMENTS_PER_CELL + elem;
    }

    /// Selects the magnet at the same place of the section before; from the
    /// first section it goes to the last.
    pub fn prev_section(&mut self)
        requires
            old(self).wf(),
        ensures
            final(self).wf(),
            *final(self) == (BeamGame {
                selected: ((if old(self).selected_section() == 0 {
                    NUM_SECTIONS - 1
                } else {
                    old(self).selected_section() - 1
                }) * ELEMENTS_PER_CELL + old(self).selected_element()) as usize,
                ..*old(self)
            }),
    {
        let elem = self.selected_element();
        let sec = if self.selected_section() == 0 {
            NUM_SECTIONS - 1
        } else {
            self.selected_section() - 1
        };
        self.selected = sec * ELEMENTS_PER_CELL + elem;
    }

    /// The power that the ramp of magnet `magnet_idx` gives at `turn`: the
    /// setpoint of the checkpoint in force, not interpolated.
    pub fn ramp_power_for_turn(&self, magnet_idx: usize, turn: u32) -> (r: i64)
        requires
            self.wf(),
            magnet_idx < TOTAL_ELEMENTS,
        ensures
            r == self.ramp_powers@[magnet_idx as int].power_for_turn(turn),
    {
        self.ramp_powers[magnet_idx].power_for_turn(turn)
    }

    /// The value nearest to `value` that checkpoint `ramp_idx` of magnet
    /// `magnet_idx` can take within the slew limit.
    pub fn clamp_ramp_value(&self, magnet_idx: usize, ramp_idx: usize, value: i64) -> (r: i64)
        requires
            self.wf(),
            magnet_idx < TOTAL_ELEMENTS,
        ensures
            r == self.ramp_powers@[magnet_idx as int].clamp_value(ramp_idx, value),
    {
        self.ramp_powers[magnet_idx].clamp_value(ramp_idx, value)
    }

    /// Shows, on every magnet, the setpoint of the checkpoint selected for
    /// editing.
    pub fn sync_display_from_ramp(&mut self)
        requires
            old(self).wf(),
        ensures
            final(self).wf(),
            final(self).magnets@ == powered_from(
                old(self).magnets@,
                old(self).ramp_powers@,
                old(self).selected_ramp as int,
            ),
            *final(self) == (BeamGame { magnets: final(self).magnets, ..*old(self) }),
    {
        let checkpoint = self.selected_ramp;
        self.power_from_checkpoint(checkpoint);
    }

    /// Puts on every magnet the power that its ramp gives at the turn the
    /// beam is in.
    pub fn sync_interpolated_powers(&mut self)
        requires
            old(self).wf(),
        ensures
            final(self).wf(),
            final(self).magnets@ == powered_from(
                old(self).magnets@,
                old(self).ramp_powers@,
                crate::ramp::checkpoint(old(self).turns_completed) as int,
            ),
            *final(self) == (BeamGame { magnets: final(self).magnets, ..*old(self) }),
    {
        let checkpoint = crate::ramp::checkpoint(self.turns_completed);
        self.power_from_checkpoint(checkpoint);
    }

    fn power_from_checkpoint(&mut self, checkpoint: usize)
        requires
            old(self).wf(),
            checkpoint < NUM_RAMPS,
        ensures
            final(self).wf(),
            final(self).magnets@ == powered_from(
                old(self).magnets@,
                old(self).ramp_powers@,
                checkpoint as int,
            ),
            *final(self) == (BeamGame { magnets: final(self).magnets, ..*old(self) }),
    {
        let mut i: usize = 0;
        while i < TOTAL_ELEMENTS
            invariant
                i <= TOTAL_ELEMENTS,
                checkpoint < NUM_RAMPS,
                old(self).wf(),
                self.magnets@.len() == TOTAL_ELEMENTS,
                forall|k: int|
                    0 <= k < i ==> #[trigger] self.magnets@[k] == (Magnet {
                        power: old(self).ramp_powers@[k].points@[checkpoint as int],
                        ..old(self).magnets@[k]
                    }),
                forall|k: int|
                    i <= k < TOTAL_ELEMENTS ==> #[trigger] self.magnets@[k] == old(self).magnets@[k],
                *self == (BeamGame { magnets: self.magnets, ..*old(self) }),
            decreases TOTAL_ELEMENTS - i,
        {
            self.magnets[i].power = self.ramp_powers[i].points[checkpoint];
            i += 1;
        }
        assert(self.magnets@ =~= powered_from(
            old(self).magnets@,
            old(self).ramp_powers@,
            checkpoint as int,
        ));
    }

    /// Edits the selected checkpoint of magnet `magnet_idx` to `value`, as far
    /// as range and slew limit allow, and puts the stored value on the
    /// magnet. A magnet that does not exist is left alone.
    pub fn set_ramp_power(&mut self, magnet_idx: usize, value: i64)
        requires
            old(self).wf(),
        ensures
            final(self).wf(),
            old(self).after_ramp_edit(magnet_idx, value, final(self)),
    {
        if magnet_idx >= TOTAL_ELEMENTS {
            return;
        }
        let ramp_idx = self.selected_ramp;
        let stored = self.ramp_powers[magnet_idx].set_clamped(ramp_idx, value);
        self.magnets[magnet_idx].power = stored;
    }

    /// The game after the selected checkpoint of magnet `magnet_idx` was
    /// edited to `value`: the ramp holds what the slew limit lets through,
    /// and the magnet shows it. Nothing else changes.
    pub open spec fn after_ramp_edit(&self, magnet_idx: usize, value: i64, after: &BeamGame) -> bool {
        if magnet_idx < TOTAL_ELEMENTS {
            let m = magnet_idx as int;
            let points = self.ramp_powers@[m].edited(self.selected_ramp, value);
            &&& after.ramp_powers@.len() == TOTAL_ELEMENTS
            &&& after.magnets@.len() == TOTAL_ELEMENTS
            &&& after.ramp_powers@[m].points@ == points
            &&& after.magnets@[m] == (Magnet {
                power: points[self.selected_ramp as int],
                ..self.magnets@[m]
            })
            &&& forall|k: int|
                0 <= k < TOTAL_ELEMENTS && k != m ==> #[trigger] after.ramp_powers@[k]
                    == self.ramp_powers@[k]
            &&& forall|k: int|
                0 <= k < TOTAL_ELEMENTS && k != m ==> #[trigger] after.magnets@[k]
                    == self.magnets@[k]
            &&& *after == (BeamGame {
                magnets: after.magnets,
                ramp_powers: after.ramp_powers,
                ..*self
            })
        } else {
            *after == *self
        }
    }

    /// Moves the selected checkpoint of magnet `magnet_idx` by `delta`, as
    /// far as range and slew limit allow.
    pub fn adjust_ramp_power(&mut self, magnet_idx: usize, delta: i64)
        requires
            old(self).wf(),
        ensures
            final(self).wf(),
            magnet_idx < TOTAL_ELEMENTS ==> old(self).after_ramp_edit(
                magnet_idx,
                plus(
                    old(self).ramp_powers@[magnet_idx as int].points@[old(self).selected_ramp as int],
                    delta,
                ),
                final(self),
            ),
            magnet_idx >= TOTAL_ELEMENTS ==> *final(self) == *old(self),
    {
        if magnet_idx >= TOTAL_ELEMENTS {
            return;
        }
        let target = plus(self.ramp_powers[magnet_idx].points[self.selected_ramp], delta);
        self.set_ramp_power(magnet_idx, target);
    }

    /// Copies the power and the whole ramp of every magnet of the selected
    /// section to the magnet at the same place of every other section.
    #[verifier::rlimit(50)]
    pub fn copy_to_all_sections(&mut self)
        requires
            old(self).wf(),
        ensures
            final(self).wf(),
            old(self).after_copy(final(self)),
    {
        let src_sec = self.selected_section();
        let src_base = src_sec * ELEMENTS_PER_CELL;
        let mut i: usize = 0;
        while i < TOTAL_ELEMENTS
            invariant
                i <= TOTAL_ELEMENTS,
                old(self).wf(),
                src_sec == old(self).selected_section(),
                src_base == src_sec * ELEMENTS_PER_CELL,
                self.magnets@.len() == TOTAL_ELEMENTS,
                self.ramp_powers@.len() == TOTAL_ELEMENTS,
                forall|k: int|
                    0 <= k < i ==> #[trigger] self.magnets@[k] == (Magnet {
                        power: old(self).magnets@[twin_in(src_sec as int, k)].power,
                        ..old(self).magnets@[k]
                    }),
                forall|k: int|
                    0 <= k < i ==> #[trigger] self.ramp_powers@[k] == old(self).ramp_powers@[twin_in(
                        src_sec as int,
                        k,
                    )],
                forall|k: int|
                    i <= k < TOTAL_ELEMENTS ==> #[trigger] self.magnets@[k] == old(self).magnets@[k],
                forall|k: int|
                    i <= k < TOTAL_ELEMENTS ==> #[trigger] self.ramp_powers@[k]
                        == old(self).ramp_powers@[k],
                *self == (BeamGame {
                    magnets: self.magnets,
                    ramp_powers: self.ramp_powers,
                    ..*old(self)
                }),
            decreases TOTAL_ELEMENTS - i,
        {
            let twin = src_base + i % ELEMENTS_PER_CELL;
            if i / ELEMENTS_PER_CELL != src_sec {
                let power = self.magnets[twin].power;
                let ramp = self.ramp_powers[twin];
                assert(twin >= i + 1 || twin < i - i % 6);
                self.magnets[i].power = power;
                self.ramp_powers[i] = ramp;
            }
            i += 1;
        }
        self.message = flash(Notice::CopiedSection { section: src_sec });
    }

    /// The game after the selected section was copied to all others.
    pub open spec fn after_copy(&self, after: &BeamGame) -> bool {
        let src = self.selected_section() as int;
        &&& after.magnets@.len() == TOTAL_ELEMENTS
        &&& after.ramp_powers@.len() == TOTAL_ELEMENTS
        &&& forall|k: int|
            0 <= k < TOTAL_ELEMENTS ==> #[trigger] after.magnets@[k] == (Magnet {
                power: self.magnets@[twin_in(src, k)].power,
                ..self.magnets@[k]
            })
        &&& forall|k: int|
            0 <= k < TOTAL_ELEMENTS ==> #[trigger] after.ramp_powers@[k] == self.ramp_powers@[twin_in(
                src,
                k,
            )]
        &&& *after == (BeamGame {
            magnets: after.magnets,
            ramp_powers: after.ramp_powers,
            message: flash(Notice::CopiedSection { section: self.selected_section() }),
            ..*self
        })
    }

    /// How steady the beam has been over the recorded history, from 0 to a
    /// hundred times `ONE`.
    pub open spec fn spec_stability_score(&self) -> i64 {
        spec_stability(
            self.pos_history@,
            self.size_history@,
            self.y_pos_history@,
            self.y_size_history@,
        )
    }

    /// How steady the beam has been over the recorded history, from 0 to a
    /// hundred times `ONE`.
    #[verifier::when_used_as_spec(spec_stability_score)]
    pub fn stability_score(&self) -> (r: i64)
        requires
            self.wf(),
        ensures
            r == self.spec_stability_score(),
    {
        stability(&self.pos_history, &self.size_history, &self.y_pos_history, &self.y_size_history)
    }
}

} // verus!
