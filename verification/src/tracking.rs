//! Tracking the bunch through the booster: element by element in the
//! transverse planes, turn by turn in the RF bucket.
//!
//! The bunch is held in billionths: millimetres, milliradians, radians of RF
//! phase, GeV. The host answers with what needs sines and cosines: the
//! matrices of the lenses, the phase advances that belong to the cosines
//! found here, and the sines of the RF phase. Which element is a lens at
//! all is decided here, by its gradient, and the arithmetic is done here.

use vstd::prelude::*;
use crate::booster::{
    Awaiting, BeamSample, BoosterGame, ElementOutcome, TransitionKick, TurnReport,
};
use crate::energy::{EnergyState, PROTON_MASS, slip_factor};
use crate::fixed::{at_least, magnitude, minus, plus, scale, times, ONE};
use crate::kicks::{plane_gradients, spec_plane_gradients};
use crate::lattice::{ElementType, LatticeElement, ELEMENTS_PER_CELL};
use crate::matrix::{
    cell_matrix, coarse, lens_matrix, refined, spec_cell_matrix, spec_lens_matrix, times_fine,
    Matrix2, CELL_LENGTH,
};
use crate::optics::{PlaneOptics, TAU};
use crate::phase::GamePhase;

verus! {

/// The size below which the envelope does not shrink: half a millimetre.
pub const MIN_SIGMA: i64 = 500_000_000;

/// The beta function below which the envelope does not follow the
/// excursion: a tenth of a metre, in millionths.
pub const MIN_BETA: i64 = 100_000;

/// A full turn of phase times the number of RF buckets round the ring,
/// which is 84, in millionths.
pub const TAU_HARMONIC: i64 = 527_787_565;

/// RMS sizes of the bunch at injection, in billionths of a millimetre.
pub const FINE_SIGMA_X: i64 = 8_140_668_019;

pub const FINE_SIGMA_Y: i64 = 6_333_739_212;

/// The bunch: where it is in both transverse planes, how wide it is, and
/// where it is in the RF bucket. All in billionths.
#[derive(Clone, Copy, PartialEq, Eq, Structural, Debug)]
pub struct Bunch {
    /// Horizontal position, in millimetres.
    pub x: i64,
    /// Horizontal angle, in milliradians.
    pub xp: i64,
    pub y: i64,
    pub yp: i64,
    /// RMS sizes of the envelope, in millimetres.
    pub sigma_x: i64,
    pub sigma_y: i64,
    /// Momentum offset, as a fraction.
    pub dp: i64,
    /// RF phase relative to the synchronous phase, in radians.
    pub phi: i64,
    /// Energy deviation from the synchronous energy, in GeV.
    pub de: i64,
}

/// What the host answers at the end of a turn.
#[derive(Clone, Copy, PartialEq, Eq, Structural, Debug)]
pub struct TurnAnswers {
    /// The cosine of the ramp angle of the turn that begins, in millionths.
    pub cos_ramp: i64,
    /// What the host has found for the matrices of an F magnet at the
    /// energy of that turn, in the horizontal and in the vertical plane.
    /// Not looked at where the gradient vanishes.
    pub fx: Matrix2,
    pub fy: Matrix2,
    /// What the host has found for the matrices of a D magnet.
    pub dx: Matrix2,
    pub dy: Matrix2,
    /// The phase advances per cell that belong to the half traces of the
    /// cell matrices, in millionths of a radian.
    pub mu_x: i64,
    pub mu_y: i64,
    /// The sine of the synchronous phase plus the phase of the bunch, after
    /// the bunch has slipped; in billionths.
    pub sin_beam: i64,
    /// The sine of the synchronous phase, in billionths.
    pub sin_sync: i64,
}

/// The size of the envelope after an element behind which the beam stands
/// at `excursion` from the axis: grown by a hundredth of the excursion over
/// the largest beta function, if that is known, and not below `MIN_SIGMA`.
pub open spec fn spec_grown(sigma: i64, excursion: i64, beta_max: i64) -> i64 {
    if beta_max > MIN_BETA {
        at_least(
            plus(
                sigma,
                times_fine(sigma, scale(scale(magnitude(excursion), ONE, beta_max), 1, 100)),
            ),
            MIN_SIGMA,
        )
    } else {
        at_least(sigma, MIN_SIGMA)
    }
}

/// The size of the envelope after an element.
#[verifier::when_used_as_spec(spec_grown)]
pub fn grown(sigma: i64, excursion: i64, beta_max: i64) -> (r: i64)
    ensures
        r == spec_grown(sigma, excursion, beta_max),
        r >= MIN_SIGMA,
{
    if beta_max > MIN_BETA {
        at_least(
            plus(
                sigma,
                times_fine(sigma, scale(scale(magnitude(excursion), ONE, beta_max), 1, 100)),
            ),
            MIN_SIGMA,
        )
    } else {
        at_least(sigma, MIN_SIGMA)
    }
}

/// By how much the energy deviation changes per unit of difference between
/// the sine at the bunch and the sine at the synchronous phase, in
/// billionths of a GeV: the RF voltage over a full turn of phase times the
/// square of the velocity times the total energy. The voltage is in
/// megavolts. Zero where that divisor is not positive.
pub open spec fn spec_rf_coefficient(energy: EnergyState, rf_voltage: i64) -> i64 {
    let divisor = times(
        TAU,
        times(times(energy.beta, energy.beta), plus(energy.ke, PROTON_MASS)),
    );
    if divisor > 0 {
        scale(rf_voltage, ONE, divisor)
    } else {
        0
    }
}

/// By how much the energy deviation changes per unit of sine difference.
#[verifier::when_used_as_spec(spec_rf_coefficient)]
pub fn rf_coefficient(energy: EnergyState, rf_voltage: i64) -> (r: i64)
    ensures
        r == spec_rf_coefficient(energy, rf_voltage),
{
    let divisor = times(
        TAU,
        times(times(energy.beta, energy.beta), plus(energy.ke, PROTON_MASS)),
    );
    if divisor > 0 {
        scale(rf_voltage, ONE, divisor)
    } else {
        0
    }
}

/// What the optics take from the matrix `cell` of a cell in one plane and
/// from the phase advance `mu` that the host has found for it.
pub open spec fn spec_plane_of(cell: Matrix2, mu: i64) -> PlaneOptics {
    PlaneOptics { cos_mu: cell.spec_half_trace(), mu, m12: coarse(cell.m12) }
}

/// What the optics take from the matrix of a cell in one plane.
#[verifier::when_used_as_spec(spec_plane_of)]
pub fn plane_of(cell: Matrix2, mu: i64) -> (r: PlaneOptics)
    ensures
        r == spec_plane_of(cell, mu),
{
    PlaneOptics { cos_mu: cell.half_trace(), mu, m12: coarse(cell.m12) }
}

/// The matrices of an element of kind `elem_type` in the horizontal and in
/// the vertical plane, at `energy` and with the quadrupole bus trimmed by
/// `quad_bus_trim`: in each plane a drift of its length where its gradient
/// vanishes, and else what the host has found for the lens.
pub open spec fn spec_element_matrices(
    elem_type: ElementType,
    energy: EnergyState,
    quad_bus_trim: i64,
    found_x: Matrix2,
    found_y: Matrix2,
) -> (Matrix2, Matrix2) {
    let k = spec_plane_gradients(elem_type, energy, quad_bus_trim);
    (
        spec_lens_matrix(k.0, elem_type.length(), found_x),
        spec_lens_matrix(k.1, elem_type.length(), found_y),
    )
}

/// The matrices of an element of kind `elem_type` in both planes.
#[verifier::when_used_as_spec(spec_element_matrices)]
pub fn element_matrices(
    elem_type: ElementType,
    energy: EnergyState,
    quad_bus_trim: i64,
    found_x: Matrix2,
    found_y: Matrix2,
) -> (r: (Matrix2, Matrix2))
    ensures
        r == spec_element_matrices(elem_type, energy, quad_bus_trim, found_x, found_y),
        !elem_type.is_magnet() ==> r.0 == Matrix2::spec_drift(elem_type.length()) && r.1
            == Matrix2::spec_drift(elem_type.length()),
{
    let k = plane_gradients(elem_type, energy, quad_bus_trim);
    let length = elem_type.length();
    (lens_matrix(k.0, length, found_x), lens_matrix(k.1, length, found_y))
}

/// The matrices of a cell in the horizontal and in the vertical plane, at
/// `energy` and with the quadrupole bus trimmed by `quad_bus_trim`, for what
/// the host has found for the lenses.
pub open spec fn spec_cell_matrices(
    energy: EnergyState,
    quad_bus_trim: i64,
    fx: Matrix2,
    fy: Matrix2,
    dx: Matrix2,
    dy: Matrix2,
) -> (Matrix2, Matrix2) {
    let f = spec_element_matrices(ElementType::FMagnet, energy, quad_bus_trim, fx, fy);
    let d = spec_element_matrices(ElementType::DMagnet, energy, quad_bus_trim, dx, dy);
    (spec_cell_matrix(f.0, d.0), spec_cell_matrix(f.1, d.1))
}

/// The matrices of a cell in both planes.
#[verifier::when_used_as_spec(spec_cell_matrices)]
pub fn cell_matrices(
    energy: EnergyState,
    quad_bus_trim: i64,
    fx: Matrix2,
    fy: Matrix2,
    dx: Matrix2,
    dy: Matrix2,
) -> (r: (Matrix2, Matrix2))
    ensures
        r == spec_cell_matrices(energy, quad_bus_trim, fx, fy, dx, dy),
{
    let f = element_matrices(ElementType::FMagnet, energy, quad_bus_trim, fx, fy);
    let d = element_matrices(ElementType::DMagnet, energy, quad_bus_trim, dx, dy);
    (cell_matrix(f.0, d.0), cell_matrix(f.1, d.1))
}

impl Bunch {
    /// The bunch as the loss model and the display see it, in millionths.
    pub open spec fn spec_sample(&self) -> BeamSample {
        BeamSample {
            x: coarse(self.x),
            xp: coarse(self.xp),
            y: coarse(self.y),
            yp: coarse(self.yp),
            sigma_x: coarse(self.sigma_x),
            sigma_y: coarse(self.sigma_y),
        }
    }

    /// The bunch of a machine that has just been set up: on the axis, at
    /// rest, with the sizes of injection.
    pub open spec fn spec_fresh() -> Bunch {
        Bunch {
            x: 0,
            xp: 0,
            y: 0,
            yp: 0,
            sigma_x: FINE_SIGMA_X,
            sigma_y: FINE_SIGMA_Y,
            dp: 0,
            phi: 0,
            de: 0,
        }
    }

    /// A bunch newly injected at `(x, y)`, given in millionths: at rest
    /// there, in the middle of the bucket, with the sizes of injection.
    pub open spec fn spec_injected_at(x: i64, y: i64) -> Bunch {
        Bunch {
            x: refined(x),
            xp: 0,
            y: refined(y),
            yp: 0,
            sigma_x: FINE_SIGMA_X,
            sigma_y: FINE_SIGMA_Y,
            dp: 0,
            phi: 0,
            de: 0,
        }
    }

    /// The bunch after it has slipped in phase for one turn at `energy`: by
    /// a full turn times the harmonic number times the slip factor times
    /// its momentum offset.
    pub open spec fn spec_slipped(&self, energy: EnergyState) -> Bunch {
        Bunch {
            phi: plus(
                self.phi,
                times(times(TAU_HARMONIC, slip_factor(energy.gamma)), self.dp),
            ),
            ..*self
        }
    }

    /// The bunch after the RF has kicked it: the energy deviation changes
    /// by the coefficient times the difference of the sines, and the
    /// momentum offset follows the energy deviation.
    pub open spec fn spec_rf_kicked(
        &self,
        energy: EnergyState,
        rf_voltage: i64,
        sin_beam: i64,
        sin_sync: i64,
    ) -> Bunch {
        let de = plus(
            self.de,
            times_fine(spec_rf_coefficient(energy, rf_voltage), minus(sin_beam, sin_sync)),
        );
        let total = plus(energy.ke, PROTON_MASS);
        Bunch {
            de,
            dp: if total > 0 {
                scale(de, ONE, total)
            } else {
                self.dp
            },
            ..*self
        }
    }

    /// The bunch after crossing transition has acted on it with `kick`.
    pub open spec fn spec_crossed(&self, kick: TransitionKick) -> Bunch {
        Bunch {
            phi: plus(self.phi, refined(kick.phase_kick)),
            de: plus(self.de, refined(kick.energy_kick)),
            sigma_x: times(self.sigma_x, kick.blowup),
            sigma_y: times(self.sigma_y, kick.blowup),
            ..*self
        }
    }

    /// The bunch as the loss model and the display see it.
    #[verifier::when_used_as_spec(spec_sample)]
    pub fn sample(&self) -> (r: BeamSample)
        ensures
            r == self.spec_sample(),
    {
        BeamSample {
            x: coarse(self.x),
            xp: coarse(self.xp),
            y: coarse(self.y),
            yp: coarse(self.yp),
            sigma_x: coarse(self.sigma_x),
            sigma_y: coarse(self.sigma_y),
        }
    }

    /// The bunch of a machine that has just been set up.
    #[verifier::when_used_as_spec(spec_fresh)]
    pub fn fresh() -> (r: Bunch)
        ensures
            r == Self::spec_fresh(),
    {
        Bunch {
            x: 0,
            xp: 0,
            y: 0,
            yp: 0,
            sigma_x: FINE_SIGMA_X,
            sigma_y: FINE_SIGMA_Y,
            dp: 0,
            phi: 0,
            de: 0,
        }
    }

    /// A bunch newly injected at `(x, y)`.
    #[verifier::when_used_as_spec(spec_injected_at)]
    pub fn injected_at(x: i64, y: i64) -> (r: Bunch)
        ensures
            r == Self::spec_injected_at(x, y),
    {
        Bunch {
            x: refined(x),
            xp: 0,
            y: refined(y),
            yp: 0,
            sigma_x: FINE_SIGMA_X,
            sigma_y: FINE_SIGMA_Y,
            dp: 0,
            phi: 0,
            de: 0,
        }
    }

    /// The bunch after it has slipped in phase for one turn at `energy`.
    #[verifier::when_used_as_spec(spec_slipped)]
    pub fn slipped(&self, energy: EnergyState) -> (r: Bunch)
        ensures
            r == self.spec_slipped(energy),
    {
        let mut b = *self;
        b.phi = plus(self.phi, times(times(TAU_HARMONIC, slip_factor(energy.gamma)), self.dp));
        b
    }

    /// The bunch after the RF has kicked it.
    #[verifier::when_used_as_spec(spec_rf_kicked)]
    pub fn rf_kicked(&self, energy: EnergyState, rf_voltage: i64, sin_beam: i64, sin_sync: i64) -> (r:
        Bunch)
        ensures
            r == self.spec_rf_kicked(energy, rf_voltage, sin_beam, sin_sync),
    {
        let mut b = *self;
        b.de =
        plus(self.de, times_fine(rf_coefficient(energy, rf_voltage), minus(sin_beam, sin_sync)));
        let total = plus(energy.ke, PROTON_MASS);
        if total > 0 {
            b.dp = scale(b.de, ONE, total);
        }
        b
    }

    /// The bunch after crossing transition has acted on it with `kick`.
    #[verifier::when_used_as_spec(spec_crossed)]
    pub fn crossed(&self, kick: TransitionKick) -> (r: Bunch)
        ensures
            r == self.spec_crossed(kick),
    {
        let mut b = *self;
        b.phi = plus(self.phi, refined(kick.phase_kick));
        b.de = plus(self.de, refined(kick.energy_kick));
        b.sigma_x = times(self.sigma_x, kick.blowup);
        b.sigma_y = times(self.sigma_y, kick.blowup);
        b
    }
}

impl BoosterGame {
    /// The matrices through which the beam goes in `element`, at the energy
    /// and with the bus trim of the game: those of a drift of its length
    /// where it has no gradient, and else those that the host has found.
    pub open spec fn matrices_for(&self, element: LatticeElement, mx: Matrix2, my: Matrix2) -> (
        Matrix2,
        Matrix2,
    ) {
        spec_element_matrices(element.elem_type, self.energy, self.quad_bus_trim, mx, my)
    }

    /// The bunch behind `element`.
    ///
    /// In a magnet, dispersion first shifts the bunch sideways. The matrices
    /// carry position and angle through the element, each plane by itself.
    /// Then the kicks of the element are added to the angles, and the
    /// envelope grows with the excursion.
    pub open spec fn bunch_after(&self, element: LatticeElement, mx: Matrix2, my: Matrix2) -> Bunch {
        let (ax, ay) = self.matrices_for(element, mx, my);
        let shift = self.spec_dispersion_shift(element, self.bunch.dp);
        let (x, xp) = ax.spec_apply(plus(self.bunch.x, shift), self.bunch.xp);
        let (y, yp) = ay.spec_apply(self.bunch.y, self.bunch.yp);
        let kicks = self.spec_angle_kicks(element, x, y);
        Bunch {
            x,
            xp: plus(xp, kicks.0),
            y,
            yp: plus(yp, kicks.1),
            sigma_x: spec_grown(self.bunch.sigma_x, x, self.optics.beta_x_max),
            sigma_y: spec_grown(self.bunch.sigma_y, y, self.optics.beta_y_max),
            ..self.bunch
        }
    }

    /// The bunch behind `element`, for the matrices `mx` and `my` that the
    /// host has found for it. Changes nothing.
    pub fn apply_element(&self, element: LatticeElement, mx: Matrix2, my: Matrix2) -> (r: Bunch)
        ensures
            r == self.bunch_after(element, mx, my),
    {
        let (ax, ay) = element_matrices(element.elem_type, self.energy, self.quad_bus_trim, mx, my);
        let shift = self.dispersion_shift(element, self.bunch.dp);
        let (x, xp) = ax.apply(plus(self.bunch.x, shift), self.bunch.xp);
        let (y, yp) = ay.apply(self.bunch.y, self.bunch.yp);
        let kicks = self.angle_kicks(element, x, y);
        Bunch {
            x,
            xp: plus(xp, kicks.0),
            y,
            yp: plus(yp, kicks.1),
            sigma_x: grown(self.bunch.sigma_x, x, self.optics.beta_x_max),
            sigma_y: grown(self.bunch.sigma_y, y, self.optics.beta_y_max),
            dp: self.bunch.dp,
            phi: self.bunch.phi,
            de: self.bunch.de,
        }
    }

    /// Whether `after` is the game after the bunch was carried through the
    /// element that was due, with the matrices `mx` and `my` that the host
    /// has made for it, and the element was accounted for.
    pub open spec fn element_tracks_to(&self, mx: Matrix2, my: Matrix2, after: &BoosterGame) -> bool {
        if self.awaiting != Awaiting::Element {
            *after == *self
        } else {
            let bunch = self.bunch_after(self.current_element(), mx, my);
            (BoosterGame { bunch, ..*self }).element_finishes_to(bunch.spec_sample(), after)
        }
    }

    /// How the sub-step ends in which the bunch is carried through the
    /// element that is due.
    pub open spec fn tracked_result(&self, mx: Matrix2, my: Matrix2) -> ElementOutcome {
        self.element_result(self.bunch_after(self.current_element(), mx, my).spec_sample())
    }

    /// Carries the bunch through the element that is due, with the matrices
    /// that the host has made for it, accounts for the element, and says
    /// how that ended.
    #[verifier::rlimit(50)]
    pub fn track_element(&mut self, mx: Matrix2, my: Matrix2) -> (r: ElementOutcome)
        requires
            old(self).wf(),
        ensures
            final(self).wf(),
            r == old(self).tracked_result(mx, my),
            old(self).element_tracks_to(mx, my, final(self)),
            old(self).beam_losses <= final(self).beam_losses,
    {
        if !matches!(self.awaiting, Awaiting::Element) {
            return ElementOutcome::Unexpected;
        }
        let index = self.beam_cell * ELEMENTS_PER_CELL + self.beam_element;
        let element = self.lattice[index];
        self.bunch = self.apply_element(element, mx, my);
        let sample = self.bunch.sample();
        self.finish_element(sample)
    }

    /// The bunch at the end of the turn that begins at `energy`, for the
    /// sines that the host has found: slipped in phase, then kicked by the
    /// RF.
    pub open spec fn bunch_after_turn(&self, energy: EnergyState, sin_beam: i64, sin_sync: i64) -> Bunch {
        self.bunch.spec_slipped(energy).spec_rf_kicked(energy, self.rf_voltage, sin_beam, sin_sync)
    }

    /// The RF phase of the bunch after it has slipped for one turn at
    /// `energy`, in billionths of a radian: the phase of which the host is
    /// to take the sine.
    pub fn phase_after_slip(&self, energy: EnergyState) -> (phi: i64)
        ensures
            phi == self.bunch.spec_slipped(energy).phi,
    {
        self.bunch.slipped(energy).phi
    }

    /// The report on the turn that the answers `answers` of the host make.
    pub open spec fn report_of(&self, answers: TurnAnswers) -> TurnReport {
        let energy = EnergyState::spec_at(self.ramp_turn, answers.cos_ramp);
        let bunch = self.bunch_after_turn(energy, answers.sin_beam, answers.sin_sync);
        let cell = spec_cell_matrices(
            energy,
            self.quad_bus_trim,
            answers.fx,
            answers.fy,
            answers.dx,
            answers.dy,
        );
        TurnReport {
            cos_ramp: answers.cos_ramp,
            x: spec_plane_of(cell.0, answers.mu_x),
            y: spec_plane_of(cell.1, answers.mu_y),
            phi: coarse(bunch.phi),
            de: coarse(bunch.de),
        }
    }

    /// The bunch after the turn for which the host has answered with
    /// `answers`: slipped, kicked by the RF, and shaken by the crossing of
    /// transition if that acts.
    pub open spec fn bunch_after_answers(&self, answers: TurnAnswers) -> Bunch {
        let energy = EnergyState::spec_at(self.ramp_turn, answers.cos_ramp);
        let bunch = self.bunch_after_turn(energy, answers.sin_beam, answers.sin_sync);
        match (BoosterGame { bunch, ..*self }).turn_kick(self.report_of(answers)) {
            Some(kick) => bunch.spec_crossed(kick),
            None => bunch,
        }
    }

    /// Whether `after` is the game after the turn that has just been
    /// completed was tracked in the RF bucket, with the answers `answers`
    /// of the host, and accounted for.
    pub open spec fn turn_tracks_to(&self, answers: TurnAnswers, after: &BoosterGame) -> bool {
        if self.awaiting != Awaiting::Turn {
            *after == *self
        } else {
            let energy = EnergyState::spec_at(self.ramp_turn, answers.cos_ramp);
            let bunch = self.bunch_after_turn(energy, answers.sin_beam, answers.sin_sync);
            &&& after.bunch == self.bunch_after_answers(answers)
            &&& (BoosterGame { bunch, ..*self }).turn_finishes_to(
                self.report_of(answers),
                &(BoosterGame { bunch, ..*after }),
            )
        }
    }

    /// Tracks the bunch in the RF bucket through the turn that has just
    /// been completed, with the answers of the host, and accounts for the
    /// turn. Returns what the crossing of transition did to the bunch, if
    /// it acted. A bunch that the turn has taken out of the bucket is lost.
    #[verifier::rlimit(50)]
    pub fn track_turn(&mut self, answers: TurnAnswers) -> (kick: Option<TransitionKick>)
        requires
            old(self).wf(),
        ensures
            final(self).wf(),
            old(self).turn_tracks_to(answers, final(self)),
            old(self).awaiting == Awaiting::Turn ==> kick == (BoosterGame {
                bunch: old(self).bunch_after_turn(
                    EnergyState::spec_at(old(self).ramp_turn, answers.cos_ramp),
                    answers.sin_beam,
                    answers.sin_sync,
                ),
                ..*old(self)
            }).turn_kick(old(self).report_of(answers)),
            old(self).awaiting != Awaiting::Turn ==> kick is None,
            old(self).beam_losses <= final(self).beam_losses,
            old(self).awaiting == Awaiting::Turn && old(self).turn_escapes(
                old(self).report_of(answers),
            ) ==> {
                &&& final(self).beam_lost
                &&& final(self).phase == GamePhase::Lost
                &&& final(self).beam_losses == old(self).beam_losses
                &&& kick is None
            },
    {
        if !matches!(self.awaiting, Awaiting::Turn) {
            return None;
        }
        let energy = EnergyState::at(self.ramp_turn, answers.cos_ramp);
        let bunch = self.bunch.slipped(energy).rf_kicked(
            energy,
            self.rf_voltage,
            answers.sin_beam,
            answers.sin_sync,
        );
        let cell =
            cell_matrices(energy, self.quad_bus_trim, answers.fx, answers.fy, answers.dx, answers.dy);
        let report = TurnReport {
            cos_ramp: answers.cos_ramp,
            x: plane_of(cell.0, answers.mu_x),
            y: plane_of(cell.1, answers.mu_y),
            phi: coarse(bunch.phi),
            de: coarse(bunch.de),
        };
        self.bunch = bunch;
        let ghost entered = *self;
        let kick = self.finish_turn(report);
        assert(self.bunch == bunch);
        assert(*self == (BoosterGame { bunch, ..*self }));
        match kick {
            Some(k) => {
                self.bunch = bunch.crossed(k);
            },
            None => {},
        }
        assert(entered.turn_finishes_to(report, &(BoosterGame { bunch, ..*self })));
        kick
    }
}

/// With no gradient in the magnets (the quadrupole bus trimmed down to
/// nothing) the cell is a chain of drifts, whatever the host has found: what
/// the optics take from it has a cosine of exactly one and the length of the
/// cell for its off-diagonal element, and no beta function is taken from it,
/// so that nothing is divided by the vanishing sine of its phase advance.
pub proof fn lemma_gradient_free_cell(
    energy: EnergyState,
    quad_bus_trim: i64,
    fx: Matrix2,
    fy: Matrix2,
    dx: Matrix2,
    dy: Matrix2,
    mu: i64,
    previous: i64,
)
    requires
        spec_plane_gradients(ElementType::FMagnet, energy, quad_bus_trim) == (0i64, 0i64),
        spec_plane_gradients(ElementType::DMagnet, energy, quad_bus_trim) == (0i64, 0i64),
    ensures
        spec_cell_matrices(energy, quad_bus_trim, fx, fy, dx, dy) == (
            Matrix2::spec_drift(CELL_LENGTH),
            Matrix2::spec_drift(CELL_LENGTH),
        ),
        spec_plane_of(spec_cell_matrices(energy, quad_bus_trim, fx, fy, dx, dy).0, mu)
            == (PlaneOptics { cos_mu: ONE, mu, m12: CELL_LENGTH }),
        spec_plane_of(spec_cell_matrices(energy, quad_bus_trim, fx, fy, dx, dy).1, mu)
            == (PlaneOptics { cos_mu: ONE, mu, m12: CELL_LENGTH }),
        crate::optics::beta_max(previous, PlaneOptics { cos_mu: ONE, mu, m12: CELL_LENGTH })
            == previous,
{
    crate::matrix::lemma_cell_without_gradient();
}

} // verus!
