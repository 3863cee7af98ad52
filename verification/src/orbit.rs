//! Laws of the orbit in the storage ring.
//!
//! What is stated here follows from how one element carries the beam
//! (`BeamState::through`) and how one sub-step accounts for it
//! (`BeamGame::steps_to`): where the beam sheds nothing, that a machine on
//! its design values keeps the beam where it was injected and brings it
//! round, how fast the beam of a machine without power leaves the axis, and
//! that the angle of the orbit is the sum of the kicks, so that a closed
//! bump leaves it alone.

use vstd::prelude::*;
use crate::beam::{
    first_blocking, BeamGame, BeamState, Restriction, Step, DESIGN_DIPOLE_POWER, GOAL_TURNS,
    LOSS_DEN, LOSS_NUM, MAX_BEAM_SIZE, MIN_BEAM_SIZE,
};
use crate::controls::Difficulty;
use crate::fixed::{in_range, LIMIT, ONE};
use crate::lattice::{
    spec_section_magnet, Magnet, MagnetType, ELEMENTS_PER_CELL, HTRIM_SLOT, NUM_SECTIONS,
    TOTAL_ELEMENTS,
};
use crate::loss::{APERTURE, LOSS_ZONE, MAX_LOSSES};

verus! {

/// Whether a beam keeps both edges inside the loss zone in both planes.
pub open spec fn inside_loss_zone(b: BeamState) -> bool {
    &&& in_range(b.position)
    &&& in_range(b.y_position)
    &&& 0 <= b.size <= LIMIT
    &&& 0 <= b.y_size <= LIMIT
    &&& -LOSS_ZONE <= b.position - b.size / 2
    &&& b.position + b.size / 2 <= LOSS_ZONE
    &&& -LOSS_ZONE <= b.y_position - b.y_size / 2
    &&& b.y_position + b.y_size / 2 <= LOSS_ZONE
}

/// The accumulated losses rise only where the beam reaches beyond the loss
/// zone: a sub-step never lets them fall, and leaves them as they are if it
/// completes no element, or if the beam behind the element keeps both edges
/// inside the loss zone.
#[verifier::rlimit(50)]
pub proof fn lemma_losses_rise_only_beyond_the_zone(before: BeamGame, after: BeamGame)
    requires
        before.wf(),
        before.turns_completed < u32::MAX,
        before.steps_to(&after),
    ensures
        before.beam_losses <= after.beam_losses,
        before.step_result() == Step::Waiting ==> after.beam_losses == before.beam_losses,
        inside_loss_zone(before.beam_after_element()) ==> after.beam_losses == before.beam_losses,
{
    crate::beam_play::lemma_step_keeps_losses(before, after);
    let b = before.beam_after_element();
    if inside_loss_zone(b) {
        crate::loss::lemma_no_loss_inside_zone(
            b.position,
            b.size,
            b.y_position,
            b.y_size,
            LOSS_NUM,
            LOSS_DEN,
        );
        assert(before.losses_after_element() == before.beam_losses);
    }
}

/// The power at which a magnet of kind `mag_type` leaves the design orbit
/// alone: the design value for a dipole, none for a quadrupole or a trim.
pub open spec fn design_power(mag_type: MagnetType) -> i64 {
    match mag_type {
        MagnetType::Dipole1 | MagnetType::Dipole2 => DESIGN_DIPOLE_POWER,
        _ => 0,
    }
}

/// Whether a beam is at rest in both planes, within range, with sizes that
/// the lenses neither raise nor cut.
pub open spec fn at_rest(b: BeamState) -> bool {
    &&& b.angle == 0
    &&& b.y_angle == 0
    &&& in_range(b.position)
    &&& in_range(b.y_position)
    &&& MIN_BEAM_SIZE <= b.size <= MAX_BEAM_SIZE
    &&& MIN_BEAM_SIZE <= b.y_size <= MAX_BEAM_SIZE
}

/// An element on its design value leaves a beam at rest as it is, wherever
/// the beam stands, as long as its envelope does not grow by itself.
pub proof fn lemma_design_element_keeps_beam(b: BeamState, mag_type: MagnetType)
    requires
        at_rest(b),
    ensures
        b.spec_through(mag_type, design_power(mag_type), 0) == b,
{
    assert(b.size * ONE / (ONE as int) == b.size) by (nonlinear_arith);
    assert(b.y_size * ONE / (ONE as int) == b.y_size) by (nonlinear_arith);
    assert(b.size * ONE >= 0 && b.y_size * ONE >= 0) by (nonlinear_arith)
        requires
            b.size >= 0,
            b.y_size >= 0,
    ;
    assert(0 * b.position == 0 && 0 * b.y_position == 0) by (nonlinear_arith);
}

/// No restriction of `restrictions` is closed where a beam centred at
/// `(x, y)` stands, whatever its section.
pub open spec fn clear_of(restrictions: Seq<Restriction>, x: i64, y: i64) -> bool {
    forall|i: int| 0 <= i < restrictions.len() ==> !(#[trigger] restrictions[i]).spec_check(x, y)
}

proof fn lemma_nothing_blocks(restrictions: Seq<Restriction>, section: usize, x: i64, y: i64, from: int)
    requires
        clear_of(restrictions, x, y),
        0 <= from,
    ensures
        first_blocking(restrictions, section, x, y, from) is None,
    decreases restrictions.len() - from,
{
    if from < restrictions.len() {
        assert(!restrictions[from].spec_check(x, y));
        lemma_nothing_blocks(restrictions, section, x, y, from + 1);
    }
}

impl BeamGame {
    /// Whether the machine stands on its design values and the beam on an
    /// orbit that they keep: every dipole at the design power, every
    /// quadrupole and trim off, no growth of the envelope, and the beam at
    /// rest inside the loss zone and clear of every restriction, with its
    /// losses below the limit, at the start of an element or one or two
    /// sub-steps into it.
    pub open spec fn on_design_orbit(&self) -> bool {
        &&& forall|i: int|
            0 <= i < TOTAL_ELEMENTS ==> (#[trigger] self.magnets@[i]).power == design_power(
                self.magnets@[i].mag_type,
            )
        &&& self.difficulty == Difficulty::Easy
        &&& at_rest(self.beam)
        &&& inside_loss_zone(self.beam)
        &&& clear_of(self.restrictions@, self.beam.position, self.beam.y_position)
        &&& self.beam_losses < MAX_LOSSES
        &&& self.beam_progress % 40 == 0
    }

    /// How many sub-steps lie between the start of the first turn and where
    /// the beam is now, for a beam that three sub-steps carry through an
    /// element.
    pub open spec fn sub_steps_done(&self) -> int {
        ((self.turns_completed * NUM_SECTIONS + self.beam_section) * ELEMENTS_PER_CELL
            + self.beam_element) * 3 + self.beam_progress / 40
    }
}

/// The number of sub-steps of a turn: three for each element of the ring.
pub const SUB_STEPS_PER_TURN: u32 = 432;

/// On the design orbit a sub-step only moves the beam on: the beam stays as
/// it is, sheds nothing, is not lost, and is one sub-step further round the
/// ring. The machine stays on its design values.
#[verifier::rlimit(50)]
pub proof fn lemma_design_orbit_step(before: BeamGame, after: BeamGame)
    requires
        before.wf(),
        before.on_design_orbit(),
        !before.beam_lost,
        !before.beam_completed,
        before.steps_to(&after),
    ensures
        after.wf(),
        after.on_design_orbit(),
        after.beam == before.beam,
        after.beam_losses == before.beam_losses,
        !after.beam_lost,
        after.sub_steps_done() == before.sub_steps_done() + 1,
        after.beam_completed == (after.turns_completed >= GOAL_TURNS),
{
    let m = before.magnets@[before.magnet_index()];
    assert(before.magnet_index() < TOTAL_ELEMENTS) by (nonlinear_arith)
        requires
            before.magnet_index() == before.beam_section * 6 + before.beam_element,
            before.beam_section < 24,
            before.beam_element < 6,
    ;
    assert(m.power == design_power(m.mag_type));
    lemma_design_element_keeps_beam(before.beam, m.mag_type);
    assert(before.beam_after_element() == before.beam);
    lemma_nothing_blocks(
        before.restrictions@,
        before.beam_section,
        before.beam.position,
        before.beam.y_position,
        0,
    );
    lemma_losses_rise_only_beyond_the_zone(before, after);
    crate::beam_play::lemma_step_keeps_losses(before, after);
    assert(before.restriction_hit() is None);
    assert(!crate::loss::hits_wall(before.beam.position, before.beam.y_position));
    assert(before.losses_after_element() == before.beam_losses);
    let p = before.beam_progress;
    assert(p == 0 || p == 40 || p == 80);
    assert(before.sub_steps_done() == ((before.turns_completed * 24 + before.beam_section) * 6
        + before.beam_element) * 3 + p / 40);
    assert(after.sub_steps_done() == ((after.turns_completed * 24 + after.beam_section) * 6
        + after.beam_element) * 3 + after.beam_progress / 40);
}

/// On the design orbit the beam goes round for as long as it is run: after
/// `n` sub-steps it is `n` sub-steps further round the ring, as it was
/// injected, with nothing shed and not lost.
#[verifier::rlimit(50)]
pub proof fn lemma_design_orbit_run(before: BeamGame, n: nat, after: BeamGame)
    requires
        before.wf(),
        before.on_design_orbit(),
        !before.beam_lost,
        before.beam_completed == (before.turns_completed >= GOAL_TURNS),
        before.sub_steps_done() + n <= GOAL_TURNS * SUB_STEPS_PER_TURN,
        before.runs_to(n, &after),
    ensures
        after.wf(),
        after.on_design_orbit(),
        after.beam == before.beam,
        after.beam_losses == before.beam_losses,
        !after.beam_lost,
        after.sub_steps_done() == before.sub_steps_done() + n,
    decreases n,
{
    if n == 0 {
    } else {
        lemma_place_is_before_the_goal(before);
        assert(!before.beam_completed);
        let mid = choose|mid: BeamGame| #[trigger]
            before.steps_to(&mid) && mid.runs_to((n - 1) as nat, &after);
        lemma_design_orbit_step(before, mid);
        lemma_design_orbit_run(mid, (n - 1) as nat, after);
    }
}

/// A game whose place in the ring is before the end of the last turn has
/// not completed its turns.
proof fn lemma_place_is_before_the_goal(game: BeamGame)
    requires
        game.wf(),
        game.sub_steps_done() < GOAL_TURNS * SUB_STEPS_PER_TURN,
    ensures
        game.turns_completed < GOAL_TURNS,
{
    let t = game.turns_completed as int;
    let s = game.beam_section as int;
    let e = game.beam_element as int;
    assert(game.sub_steps_done() == ((t * 24 + s) * 6 + e) * 3 + game.beam_progress / 40);
    assert(game.sub_steps_done() >= t * 432) by (nonlinear_arith)
        requires
            game.sub_steps_done() == ((t * 24 + s) * 6 + e) * 3 + game.beam_progress / 40,
            s >= 0,
            e >= 0,
            game.beam_progress / 40 >= 0,
    ;
}

/// With the bend on its design value and trims and quadrupoles off, a beam
/// injected at rest, inside the loss zone and clear of the restrictions,
/// completes a full turn in as many sub-steps as the ring has: it is back
/// where it started, as it was injected, with nothing shed.
pub proof fn lemma_design_bend_completes_a_turn(before: BeamGame, after: BeamGame)
    requires
        before.wf(),
        before.on_design_orbit(),
        !before.beam_lost,
        !before.beam_completed,
        before.turns_completed == 0,
        before.beam_section == 0,
        before.beam_element == 0,
        before.beam_progress == 0,
        before.runs_to(SUB_STEPS_PER_TURN as nat, &after),
    ensures
        after.turns_completed == 1,
        after.beam_section == 0,
        after.beam_element == 0,
        after.beam_progress == 0,
        !after.beam_lost,
        after.beam == before.beam,
        after.beam_losses == before.beam_losses,
{
    lemma_design_orbit_run(before, SUB_STEPS_PER_TURN as nat, after);
    let t = after.turns_completed as int;
    let s = after.beam_section as int;
    let e = after.beam_element as int;
    let q = after.beam_progress as int / 40;
    assert(((t * 24 + s) * 6 + e) * 3 + q == 432);
    assert(0 <= q <= 2);
    assert(t == 1 && s == 0 && e == 0 && q == 0) by (nonlinear_arith)
        requires
            ((t * 24 + s) * 6 + e) * 3 + q == 432,
            0 <= q <= 2,
            0 <= e < 6,
            0 <= s < 24,
            0 <= t,
    ;
}

/// The beam behind the magnet at place `slot` of a section, if the magnet
/// is off and the envelope does not grow by itself.
#[verifier::opaque]
pub open spec fn through_unpowered(b: BeamState, slot: int) -> BeamState {
    b.spec_through(spec_section_magnet(slot), 0, 0)
}

/// The beam behind a section whose magnets are all off.
pub open spec fn through_unpowered_section(b: BeamState) -> BeamState {
    through_unpowered(
        through_unpowered(
            through_unpowered(through_unpowered(through_unpowered(through_unpowered(b, 0), 1), 2), 3),
            4,
        ),
        5,
    )
}

/// The beam behind `n` sections whose magnets are all off.
pub open spec fn through_unpowered_sections(b: BeamState, n: nat) -> BeamState
    decreases n,
{
    if n == 0 {
        b
    } else {
        through_unpowered_section(through_unpowered_sections(b, (n - 1) as nat))
    }
}

/// Whether a beam is at rest vertically, has an even angle, so that half of
/// it is exact, and is so near the axis that nothing saturates while it
/// goes through an element.
pub open spec fn steady(b: BeamState, reach: int) -> bool {
    &&& b.angle % 2 == 0
    &&& -reach <= b.angle <= reach
    &&& -10 * reach <= b.position <= 10 * reach
    &&& b.y_angle == 0
    &&& in_range(b.y_position)
    &&& MIN_BEAM_SIZE <= b.size <= MAX_BEAM_SIZE
    &&& MIN_BEAM_SIZE <= b.y_size <= MAX_BEAM_SIZE
}

/// The reach in which a section without power keeps a beam.
pub open spec fn within_reach(b: BeamState) -> bool {
    steady(b, 10_000_000_000)
}

/// A magnet without power: a quadrupole or the vertical trim lets the beam
/// drift on by half its angle, the horizontal trim by one and a half times
/// its angle; a dipole leaves the angle short by the design power and lets
/// the beam drift on by two and a half times the new angle. The vertical
/// plane and the sizes stay as they are.
pub proof fn lemma_unpowered_element(b: BeamState, slot: int)
    requires
        steady(b, 20_000_000_000),
        0 <= slot < ELEMENTS_PER_CELL,
    ensures
        through_unpowered(b, slot) == match spec_section_magnet(slot) {
            MagnetType::FocusQuad | MagnetType::DefocusQuad | MagnetType::VTrim => BeamState {
                position: (b.position + b.angle / 2) as i64,
                ..b
            },
            MagnetType::HTrim => BeamState {
                position: (b.position + b.angle + b.angle / 2) as i64,
                ..b
            },
            MagnetType::Dipole1 | MagnetType::Dipole2 => BeamState {
                angle: (b.angle - DESIGN_DIPOLE_POWER) as i64,
                position: (b.position + 2 * (b.angle - DESIGN_DIPOLE_POWER) + (b.angle
                    - DESIGN_DIPOLE_POWER) / 2) as i64,
                ..b
            },
        },
{
    reveal(through_unpowered);
    assert(b.size * ONE / (ONE as int) == b.size) by (nonlinear_arith);
    assert(b.y_size * ONE / (ONE as int) == b.y_size) by (nonlinear_arith);
    assert(b.size * ONE >= 0 && b.y_size * ONE >= 0) by (nonlinear_arith)
        requires
            b.size >= 0,
            b.y_size >= 0,
    ;
    assert(0 * b.position == 0 && 0 * b.y_position == 0) by (nonlinear_arith);
}

/// A section without power bends the beam too little: each of its two
/// dipoles leaves the angle short by the design power, and the beam drifts
/// on with the angle it has. Over the section the angle falls by twice the
/// design power, and the position moves by eight times the angle the beam
/// came with, less twelve times the design power. The vertical plane and
/// the sizes stay as they are.
pub proof fn lemma_unpowered_section(b: BeamState)
    requires
        within_reach(b),
    ensures
        through_unpowered_section(b) == (BeamState {
            angle: (b.angle - 2 * DESIGN_DIPOLE_POWER) as i64,
            position: (b.position + 8 * b.angle - 12 * DESIGN_DIPOLE_POWER) as i64,
            ..b
        }),
{
    let a = b.angle as int;
    let p = b.position as int;
    let h = a / 2;
    assert(a == 2 * h);
    assert(spec_section_magnet(0) == MagnetType::FocusQuad);
    assert(spec_section_magnet(1) == MagnetType::Dipole1);
    assert(spec_section_magnet(2) == MagnetType::DefocusQuad);
    assert(spec_section_magnet(3) == MagnetType::Dipole2);
    assert(spec_section_magnet(4) == MagnetType::VTrim);
    assert(spec_section_magnet(5) == MagnetType::HTrim);
    let b1 = through_unpowered(b, 0);
    lemma_unpowered_element(b, 0);
    assert(b1 == (BeamState { position: (p + h) as i64, ..b }));
    let b2 = through_unpowered(b1, 1);
    lemma_unpowered_element(b1, 1);
    assert((a - 130_900) / 2 == h - 65_450);
    assert(b2 == (BeamState {
        angle: (a - 130_900) as i64,
        position: (p + 6 * h - 327_250) as i64,
        ..b
    }));
    let b3 = through_unpowered(b2, 2);
    lemma_unpowered_element(b2, 2);
    assert(b3 == (BeamState {
        angle: (a - 130_900) as i64,
        position: (p + 7 * h - 392_700) as i64,
        ..b
    }));
    let b4 = through_unpowered(b3, 3);
    lemma_unpowered_element(b3, 3);
    assert((a - 261_800) / 2 == h - 130_900);
    assert(b4 == (BeamState {
        angle: (a - 261_800) as i64,
        position: (p + 12 * h - 1_047_200) as i64,
        ..b
    }));
    let b5 = through_unpowered(b4, 4);
    lemma_unpowered_element(b4, 4);
    assert(b5 == (BeamState {
        angle: (a - 261_800) as i64,
        position: (p + 13 * h - 1_178_100) as i64,
        ..b
    }));
    let b6 = through_unpowered(b5, 5);
    lemma_unpowered_element(b5, 5);
    assert(b6 == (BeamState {
        angle: (a - 261_800) as i64,
        position: (p + 16 * h - 1_570_800) as i64,
        ..b
    }));
    assert(through_unpowered_section(b) == b6);
}

proof fn lemma_drift_sums(n: int)
    requires
        1 <= n <= 24,
    ensures
        0 <= 8 * n * n + 4 * n <= 4_704,
        8 * (n - 1) * (n - 1) + 4 * (n - 1) + 16 * (n - 1) + 12 == 8 * n * n + 4 * n,
        0 <= 8 * (n - 1) * (n - 1) + 4 * (n - 1) <= 4_704,
        n <= 6 ==> 8 * n * n + 4 * n <= 312,
        n >= 7 ==> 8 * n * n + 4 * n >= 420,
{
    assert(0 <= 8 * n * n + 4 * n <= 4_704) by (nonlinear_arith)
        requires
            1 <= n <= 24,
    ;
    assert(8 * (n - 1) * (n - 1) + 4 * (n - 1) + 16 * (n - 1) + 12 == 8 * n * n + 4 * n)
        by (nonlinear_arith);
    assert(0 <= 8 * (n - 1) * (n - 1) + 4 * (n - 1) <= 4_704) by (nonlinear_arith)
        requires
            1 <= n <= 24,
    ;
    assert(n <= 6 ==> 8 * n * n + 4 * n <= 312) by (nonlinear_arith)
        requires
            1 <= n,
    ;
    assert(n >= 7 ==> 8 * n * n + 4 * n >= 420) by (nonlinear_arith);
}

/// How far a beam has drifted behind `n` sections without power, in units
/// of the design power.
pub open spec fn drift_sum(n: nat) -> int {
    8 * (n as int) * (n as int) + 4 * (n as int)
}

/// In a ring without power a beam injected at rest leaves the axis further
/// with every section: behind `n` sections its angle is `n` times twice the
/// design power short, and it stands `8 n^2 + 4 n` times the design power
/// to the inside of where it was injected. Injected on the axis, it is
/// still inside the aperture behind six sections and outside it behind
/// seven.
pub proof fn lemma_unpowered_beam_leaves_the_axis(x: i64, y: i64, n: nat)
    requires
        n <= NUM_SECTIONS,
        -APERTURE <= x <= APERTURE,
        -APERTURE <= y <= APERTURE,
    ensures
        through_unpowered_sections(BeamState::spec_injected(x, y), n) == (BeamState {
            angle: (-2 * n * DESIGN_DIPOLE_POWER) as i64,
            position: (x - drift_sum(n) * DESIGN_DIPOLE_POWER) as i64,
            ..BeamState::spec_injected(x, y)
        }),
        x == 0 && n <= 6 ==> through_unpowered_sections(BeamState::spec_injected(x, y), n).position
            >= -APERTURE,
        x == 0 && n >= 7 ==> through_unpowered_sections(BeamState::spec_injected(x, y), n).position
            < -APERTURE,
    decreases n,
{
    if n > 0 {
        let m = (n - 1) as nat;
        lemma_unpowered_beam_leaves_the_axis(x, y, m);
        lemma_drift_sums(n as int);
        let b = through_unpowered_sections(BeamState::spec_injected(x, y), m);
        let s = drift_sum(m);
        assert(s == 8 * (n - 1) * (n - 1) + 4 * (n - 1));
        assert(b.angle == -2 * m * 130_900);
        assert(b.position == x - s * 130_900);
        assert(b.angle == 2 * (-(m * 130_900)));
        assert(within_reach(b));
        lemma_unpowered_section(b);
        assert(drift_sum(n) == s + 16 * m + 12);
    }
}

/// The beam behind the magnets of places `from` up to, not including,
/// `to` of `magnets`, one after the other, where the envelope grows by
/// `growth` in every element.
pub open spec fn through_span(
    b: BeamState,
    magnets: Seq<Magnet>,
    from: int,
    to: int,
    growth: i64,
) -> BeamState
    decreases to - from,
{
    if to <= from {
        b
    } else {
        through_span(b, magnets, from, to - 1, growth).spec_through(
            magnets[to - 1].mag_type,
            magnets[to - 1].power,
            growth,
        )
    }
}

/// The kick that a magnet gives the horizontal angle of a beam on its axis:
/// a horizontal trim its power, a dipole what its power is off the design
/// value, any other magnet none.
pub open spec fn horizontal_kick(magnet: Magnet) -> int {
    match magnet.mag_type {
        MagnetType::HTrim => magnet.power as int,
        MagnetType::Dipole1 | MagnetType::Dipole2 => magnet.power - DESIGN_DIPOLE_POWER,
        _ => 0,
    }
}

/// The sum of the horizontal kicks of the magnets of places `from` up to,
/// not including, `to`.
pub open spec fn kick_sum(magnets: Seq<Magnet>, from: int, to: int) -> int
    decreases to - from,
{
    if to <= from {
        0
    } else {
        kick_sum(magnets, from, to - 1) + horizontal_kick(magnets[to - 1])
    }
}

/// The most that a supply is taken to deliver where kicks are summed up.
pub const STRONGEST_KICK: i64 = 1_000_000_000;

/// Whether the magnets of places `from` up to `to` have their quadrupoles
/// off and no supply beyond `STRONGEST_KICK`.
pub open spec fn kicks_only(magnets: Seq<Magnet>, from: int, to: int) -> bool {
    &&& 0 <= from <= to <= magnets.len()
    &&& to - from <= TOTAL_ELEMENTS
    &&& forall|i: int|
        from <= i < to ==> -STRONGEST_KICK <= (#[trigger] magnets[i]).power <= STRONGEST_KICK
    &&& forall|i: int|
        from <= i < to && ((#[trigger] magnets[i]).mag_type == MagnetType::FocusQuad
            || magnets[i].mag_type == MagnetType::DefocusQuad) ==> magnets[i].power == 0
}

proof fn lemma_kick_sum_is_bounded(magnets: Seq<Magnet>, from: int, to: int)
    requires
        kicks_only(magnets, from, to),
    ensures
        -(to - from) * 1_000_130_900 <= kick_sum(magnets, from, to) <= (to - from) * 1_000_130_900,
    decreases to - from,
{
    if to > from {
        lemma_kick_sum_is_bounded(magnets, from, to - 1);
        let m = magnets[to - 1];
        assert(-1_000_130_900 <= horizontal_kick(m) <= 1_000_130_900);
        assert((to - from) * 1_000_130_900 == (to - 1 - from) * 1_000_130_900 + 1_000_130_900)
            by (nonlinear_arith);
    }
}

/// Where the quadrupoles are off, the angle of the orbit is the sum of the
/// kicks: behind any stretch of the ring the horizontal angle of the beam
/// is the angle it came with plus the kicks of the magnets it passed,
/// wherever the beam stands.
pub proof fn lemma_angle_is_sum_of_kicks(
    b: BeamState,
    magnets: Seq<Magnet>,
    from: int,
    to: int,
    growth: i64,
)
    requires
        kicks_only(magnets, from, to),
        -100_000_000_000 <= b.angle <= 100_000_000_000,
    ensures
        through_span(b, magnets, from, to, growth).angle == b.angle + kick_sum(magnets, from, to),
    decreases to - from,
{
    if to > from {
        lemma_angle_is_sum_of_kicks(b, magnets, from, to - 1, growth);
        lemma_kick_sum_is_bounded(magnets, from, to - 1);
        let before = through_span(b, magnets, from, to - 1, growth);
        let m = magnets[to - 1];
        assert(-STRONGEST_KICK <= m.power <= STRONGEST_KICK);
        assert((to - 1 - from) * 1_000_130_900 <= 144 * 1_000_130_900) by (nonlinear_arith)
            requires
                to - 1 - from <= 144,
        ;
        assert(-LIMIT + 2 * STRONGEST_KICK <= before.angle <= LIMIT - 2 * STRONGEST_KICK);
        if m.mag_type == MagnetType::FocusQuad || m.mag_type == MagnetType::DefocusQuad {
            assert(m.power == 0);
            assert(0 * before.position == 0) by (nonlinear_arith);
        }
    }
}

/// Whether `changed` is `magnets` with the horizontal trims of three
/// sections in a row, from `section` on, changed by `d`, by twice `d` the
/// other way, and by `d`: the pattern of a bump of three.
pub open spec fn three_bump_between(
    magnets: Seq<Magnet>,
    changed: Seq<Magnet>,
    section: int,
    d: int,
) -> bool {
    let first = section * ELEMENTS_PER_CELL + HTRIM_SLOT;
    let second = first + ELEMENTS_PER_CELL;
    let third = second + ELEMENTS_PER_CELL;
    &&& changed.len() == magnets.len()
    &&& 0 <= section
    &&& third < magnets.len()
    &&& magnets[first].mag_type == MagnetType::HTrim
    &&& magnets[second].mag_type == MagnetType::HTrim
    &&& magnets[third].mag_type == MagnetType::HTrim
    &&& forall|i: int|
        0 <= i < magnets.len() ==> (#[trigger] changed[i]).mag_type == magnets[i].mag_type
    &&& forall|i: int|
        0 <= i < magnets.len() && i != first && i != second && i != third ==> (
        #[trigger] changed[i]).power == magnets[i].power
    &&& changed[first].power == magnets[first].power + d
    &&& changed[second].power == magnets[second].power - 2 * d
    &&& changed[third].power == magnets[third].power + d
}

proof fn lemma_kick_sum_of_changed(
    magnets: Seq<Magnet>,
    changed: Seq<Magnet>,
    section: int,
    d: int,
    from: int,
    to: int,
)
    requires
        three_bump_between(magnets, changed, section, d),
        0 <= from <= to <= magnets.len(),
    ensures
        kick_sum(changed, from, to) == kick_sum(magnets, from, to) + (if from <= section * 6 + 5
            < to {
            d
        } else {
            0
        }) + (if from <= section * 6 + 11 < to {
            -2 * d
        } else {
            0
        }) + (if from <= section * 6 + 17 < to {
            d
        } else {
            0
        }),
    decreases to - from,
{
    if to > from {
        lemma_kick_sum_of_changed(magnets, changed, section, d, from, to - 1);
        let i = to - 1;
        assert(changed[i].mag_type == magnets[i].mag_type);
        if i != section * 6 + 5 && i != section * 6 + 11 && i != section * 6 + 17 {
            assert(changed[i].power == magnets[i].power);
        }
    }
}

/// A bump of three is closed: with the quadrupoles between its trims off,
/// the beam leaves the third trim at the angle at which it would have left
/// it without the bump, whatever the bump has done to its position in
/// between. So the orbit beyond the span keeps its angle.
pub proof fn lemma_three_bump_keeps_the_angle(
    b: BeamState,
    magnets: Seq<Magnet>,
    changed: Seq<Magnet>,
    section: int,
    d: int,
    growth: i64,
)
    requires
        three_bump_between(magnets, changed, section, d),
        kicks_only(magnets, section * 6 + 5, section * 6 + 18),
        kicks_only(changed, section * 6 + 5, section * 6 + 18),
        -100_000_000_000 <= b.angle <= 100_000_000_000,
    ensures
        through_span(b, changed, section * 6 + 5, section * 6 + 18, growth).angle == through_span(
            b,
            magnets,
            section * 6 + 5,
            section * 6 + 18,
            growth,
        ).angle,
{
    let from = section * 6 + 5;
    let to = section * 6 + 18;
    lemma_angle_is_sum_of_kicks(b, magnets, from, to, growth);
    lemma_angle_is_sum_of_kicks(b, changed, from, to, growth);
    lemma_kick_sum_of_changed(magnets, changed, section, d, from, to);
}

/// Inside its span a bump does move the orbit: between the first trim and
/// the second the beam goes at an angle that is off by the kick of the
/// first trim.
pub proof fn lemma_three_bump_tilts_the_orbit_inside(
    b: BeamState,
    magnets: Seq<Magnet>,
    changed: Seq<Magnet>,
    section: int,
    d: int,
    growth: i64,
    to: int,
)
    requires
        three_bump_between(magnets, changed, section, d),
        section * 6 + 5 < to <= section * 6 + 11,
        kicks_only(magnets, section * 6 + 5, to),
        kicks_only(changed, section * 6 + 5, to),
        -100_000_000_000 <= b.angle <= 100_000_000_000,
    ensures
        through_span(b, changed, section * 6 + 5, to, growth).angle == through_span(
            b,
            magnets,
            section * 6 + 5,
            to,
            growth,
        ).angle + d,
{
    let from = section * 6 + 5;
    lemma_angle_is_sum_of_kicks(b, magnets, from, to, growth);
    lemma_angle_is_sum_of_kicks(b, changed, from, to, growth);
    lemma_kick_sum_of_changed(magnets, changed, section, d, from, to);
}

/// Whether two beams are the same in the vertical plane and in size.
pub open spec fn same_but_horizontally(a: BeamState, b: BeamState) -> bool {
    &&& a.y_position == b.y_position
    &&& a.y_angle == b.y_angle
    &&& a.y_size == b.y_size
    &&& a.size == b.size
}

/// Whether two rings differ at most in the power of their horizontal
/// trims.
pub open spec fn same_but_horizontal_trims(magnets: Seq<Magnet>, changed: Seq<Magnet>) -> bool {
    &&& changed.len() == magnets.len()
    &&& forall|i: int|
        0 <= i < magnets.len() ==> (#[trigger] changed[i]).mag_type == magnets[i].mag_type
    &&& forall|i: int|
        0 <= i < magnets.len() && magnets[i].mag_type != MagnetType::HTrim ==> (
        #[trigger] changed[i]).power == magnets[i].power
}

proof fn lemma_element_keeps_the_vertical_plane(
    a: BeamState,
    b: BeamState,
    mag_type: MagnetType,
    power: i64,
    changed: i64,
    growth: i64,
)
    requires
        same_but_horizontally(a, b),
        mag_type != MagnetType::HTrim ==> changed == power,
    ensures
        same_but_horizontally(
            a.spec_through(mag_type, power, growth),
            b.spec_through(mag_type, changed, growth),
        ),
{
}

/// The horizontal trims leave the vertical plane alone: however they are
/// set, and wherever the beam stands horizontally, its vertical position
/// and angle and both its sizes come out the same.
pub proof fn lemma_horizontal_trims_leave_the_vertical_plane(
    a: BeamState,
    b: BeamState,
    magnets: Seq<Magnet>,
    changed: Seq<Magnet>,
    from: int,
    to: int,
    growth: i64,
)
    requires
        same_but_horizontally(a, b),
        same_but_horizontal_trims(magnets, changed),
        0 <= from <= to <= magnets.len(),
    ensures
        same_but_horizontally(
            through_span(a, magnets, from, to, growth),
            through_span(b, changed, from, to, growth),
        ),
    decreases to - from,
{
    if to > from {
        lemma_horizontal_trims_leave_the_vertical_plane(
            a,
            b,
            magnets,
            changed,
            from,
            to - 1,
            growth,
        );
        assert(changed[to - 1].mag_type == magnets[to - 1].mag_type);
        if magnets[to - 1].mag_type != MagnetType::HTrim {
            assert(changed[to - 1].power == magnets[to - 1].power);
        }
        lemma_element_keeps_the_vertical_plane(
            through_span(a, magnets, from, to - 1, growth),
            through_span(b, changed, from, to - 1, growth),
            magnets[to - 1].mag_type,
            magnets[to - 1].power,
            changed[to - 1].power,
            growth,
        );
    }
}

/// What the game does to the beam in one element is one step of a span.
pub proof fn lemma_game_goes_by_elements(game: BeamGame)
    ensures
        game.beam_after_element() == through_span(
            game.beam,
            game.magnets@,
            game.magnet_index(),
            game.magnet_index() + 1,
            game.difficulty.size_growth_rate(),
        ),
{
    let i = game.magnet_index();
    let growth = game.difficulty.size_growth_rate();
    assert(through_span(game.beam, game.magnets@, i, i, growth) == game.beam);
    assert(through_span(game.beam, game.magnets@, i, i + 1, growth) == through_span(
        game.beam,
        game.magnets@,
        i,
        i,
        growth,
    ).spec_through(game.magnets@[i].mag_type, game.magnets@[i].power, growth));
}

/// What a machine without power and growth does to the beam in one element
/// is the step of an element without power.
pub proof fn lemma_game_without_power(game: BeamGame)
    requires
        game.wf(),
        game.magnets@[game.magnet_index()].power == 0,
        game.difficulty == Difficulty::Easy,
    ensures
        game.beam_after_element() == through_unpowered(game.beam, game.beam_element as int),
{
    reveal(through_unpowered);
    let i = game.magnet_index();
    let s = game.beam_section as int;
    let e = game.beam_element as int;
    assert(i == s * 6 + e);
    assert(0 <= i < 144);
    assert(i % 6 == e);
    assert(game.magnets@[i].mag_type == spec_section_magnet(i % 6));
}

} // verus!
