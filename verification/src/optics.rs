//! The optics of the ring as the display and the loss model see them: tunes,
//! the largest beta functions, dispersion, chromaticities and the tune shift
//! from space charge.
//!
//! For each plane the optics are made of three numbers of the matrix of a
//! cell: half its trace, the phase advance that belongs to it, which the host
//! finds, and its upper right entry. What is made of them is decided here. A
//! cell that is momentarily unstable gives no tune and no beta function: the
//! last good values stay. Close to transition, where the slip factor goes
//! through zero, the dispersion is capped and not allowed to diverge.

use vstd::prelude::*;
use crate::corrector::CorrectorPackage;
use crate::energy::{sqrt, EnergyState};
use crate::fixed::{at_most, magnitude, minus, negate, plus, scale, times, LIMIT, ONE};

verus! {

/// A full turn of phase, in millionths of a radian.
pub const TAU: i64 = 6_283_185;

/// The number of cells, as a fixed-point quantity.
pub const CELLS: i64 = 24_000_000;

/// Tunes of the bare lattice at injection.
pub const TUNE_X_BARE: i64 = 6_700_000;

pub const TUNE_Y_BARE: i64 = 6_800_000;

/// Largest beta functions of the bare lattice, in metres.
pub const BETA_X_BARE: i64 = 33_700_000;

pub const BETA_Y_BARE: i64 = 20_400_000;

/// Largest dispersion of the bare lattice, in metres.
pub const DISPERSION_BARE: i64 = 3_200_000;

/// Natural chromaticities.
pub const CHROMATICITY_X_BARE: i64 = -7_000_000;

pub const CHROMATICITY_Y_BARE: i64 = -8_000_000;

/// The sine of the phase advance below which no beta function is taken.
pub const MIN_SINE: i64 = 10_000;

/// The magnitude of the slip factor below which the dispersion is capped.
pub const MIN_SLIP: i64 = 10_000;

/// The cap of the dispersion, and of what it is divided by.
pub const MAX_DISPERSION: i64 = 50_000_000;

/// The square of the Lorentz factor at transition.
pub const GAMMA_TRANSITION_SQUARED: i64 = 29_658_916;

/// How much a unit of trim quadrupole, summed over the ring, moves the
/// tunes: this over `TRIM_QUAD_DEN`.
pub const TRIM_QUAD_NUM: i64 = 1;

pub const TRIM_QUAD_DEN: i64 = 20;

/// RMS geometric emittance at injection, in mm mrad.
pub const INJECTION_EMITTANCE: i64 = 1_966_482;

/// What the optics take from the matrix of a cell in one plane.
#[derive(Clone, Copy, PartialEq, Eq, Structural, Debug)]
pub struct PlaneOptics {
    /// Half the trace of the cell matrix: the cosine of the phase advance.
    pub cos_mu: i64,
    /// The phase advance per cell, in radians. Read only where `cos_mu` is
    /// a cosine.
    pub mu: i64,
    /// The upper right entry of the cell matrix.
    pub m12: i64,
}

/// The sums of three kinds of corrector over the ring.
#[derive(Clone, Copy, PartialEq, Eq, Structural, Debug)]
pub struct CorrectorSums {
    pub trim_quad: i64,
    pub sext_a: i64,
    pub sext_b: i64,
}

/// The optics of the ring.
#[derive(Clone, Copy, PartialEq, Eq, Structural, Debug)]
pub struct OpticsState {
    pub tune_x: i64,
    pub tune_y: i64,
    pub beta_x_max: i64,
    pub beta_y_max: i64,
    pub dispersion_max: i64,
    pub chromaticity_x: i64,
    pub chromaticity_y: i64,
    /// Tune shift from space charge.
    pub sc_tune_shift: i64,
}

/// The sums over the first `n` corrector packages.
pub open spec fn spec_sums(correctors: Seq<CorrectorPackage>, n: int) -> CorrectorSums
    decreases n,
{
    if n <= 0 {
        CorrectorSums { trim_quad: 0, sext_a: 0, sext_b: 0 }
    } else {
        let before = spec_sums(correctors, n - 1);
        CorrectorSums {
            trim_quad: plus(before.trim_quad, correctors[n - 1].trim_quad),
            sext_a: plus(before.sext_a, correctors[n - 1].sext_a),
            sext_b: plus(before.sext_b, correctors[n - 1].sext_b),
        }
    }
}

/// The sums of trim quadrupoles and of both sextupole families over all
/// corrector packages.
pub fn corrector_sums(correctors: &Vec<CorrectorPackage>) -> (r: CorrectorSums)
    ensures
        r == spec_sums(correctors@, correctors@.len() as int),
{
    let mut sums = CorrectorSums { trim_quad: 0, sext_a: 0, sext_b: 0 };
    let mut i: usize = 0;
    while i < correctors.len()
        invariant
            i <= correctors@.len(),
            sums == spec_sums(correctors@, i as int),
        decreases correctors@.len() - i,
    {
        sums =
        CorrectorSums {
            trim_quad: plus(sums.trim_quad, correctors[i].trim_quad),
            sext_a: plus(sums.sext_a, correctors[i].sext_a),
            sext_b: plus(sums.sext_b, correctors[i].sext_b),
        };
        i += 1;
    }
    sums
}

/// Whether the cell is stable in a plane: half the trace of its matrix is a
/// cosine.
pub open spec fn spec_is_stable(plane: PlaneOptics) -> bool {
    magnitude(plane.cos_mu) <= ONE
}

/// Whether the cell is stable in a plane.
#[verifier::when_used_as_spec(spec_is_stable)]
pub fn is_stable(plane: PlaneOptics) -> (r: bool)
    ensures
        r == spec_is_stable(plane),
{
    magnitude(plane.cos_mu) <= ONE
}

/// The tune of a plane before the trim quadrupoles are counted: the number
/// of cells times the phase advance over a full turn, if the cell is
/// stable; else the tune as it was.
pub open spec fn spec_bare_tune(previous: i64, plane: PlaneOptics) -> i64 {
    if spec_is_stable(plane) {
        scale(plane.mu, CELLS, TAU)
    } else {
        previous
    }
}

/// The tune of a plane before the trim quadrupoles are counted.
#[verifier::when_used_as_spec(spec_bare_tune)]
pub fn bare_tune(previous: i64, plane: PlaneOptics) -> (r: i64)
    ensures
        r == spec_bare_tune(previous, plane),
        !is_stable(plane) ==> r == previous,
{
    if is_stable(plane) {
        scale(plane.mu, CELLS, TAU)
    } else {
        previous
    }
}

/// The sine of the phase advance of a plane.
pub open spec fn spec_sine(plane: PlaneOptics) -> i64 {
    sqrt(minus(ONE, times(plane.cos_mu, plane.cos_mu)))
}

/// The largest beta function of a plane: the magnitude of the upper right
/// entry over the sine of the phase advance, if the cell is strictly stable
/// and the sine is not too small; else the value as it was.
pub open spec fn spec_beta_max(previous: i64, plane: PlaneOptics) -> i64 {
    if magnitude(plane.cos_mu) < ONE && spec_sine(plane) > MIN_SINE {
        scale(magnitude(plane.m12), ONE, spec_sine(plane))
    } else {
        previous
    }
}

/// The largest beta function of a plane.
#[verifier::when_used_as_spec(spec_beta_max)]
pub fn beta_max(previous: i64, plane: PlaneOptics) -> (r: i64)
    ensures
        r == spec_beta_max(previous, plane),
        magnitude(plane.cos_mu) >= ONE ==> r == previous,
{
    if magnitude(plane.cos_mu) < ONE {
        let sine = sqrt(minus(ONE, times(plane.cos_mu, plane.cos_mu)));
        if sine > MIN_SINE {
            return scale(magnitude(plane.m12), ONE, sine);
        }
    }
    previous
}

/// The largest dispersion at slip factor `eta`: the bare value over the
/// magnitude of the slip factor times the square of the transition Lorentz
/// factor, that product capped; and the cap itself near transition, where
/// the slip factor is small.
pub open spec fn spec_dispersion(eta: i64) -> i64 {
    if magnitude(eta) > MIN_SLIP {
        scale(
            DISPERSION_BARE,
            ONE,
            at_most(times(magnitude(eta), GAMMA_TRANSITION_SQUARED), MAX_DISPERSION),
        )
    } else {
        MAX_DISPERSION
    }
}

/// The largest dispersion at slip factor `eta`.
#[verifier::when_used_as_spec(spec_dispersion)]
pub fn dispersion(eta: i64) -> (r: i64)
    ensures
        r == spec_dispersion(eta),
{
    let size = magnitude(eta);
    if size > MIN_SLIP {
        assert(size * GAMMA_TRANSITION_SQUARED >= 10_001 * GAMMA_TRANSITION_SQUARED)
            by (nonlinear_arith)
            requires
                size >= 10_001,
        ;
        let divisor = at_most(times(size, GAMMA_TRANSITION_SQUARED), MAX_DISPERSION);
        scale(DISPERSION_BARE, ONE, divisor)
    } else {
        MAX_DISPERSION
    }
}

/// What the space-charge tune shift is divided by: the emittance at
/// injection times the velocity times the square of the Lorentz factor.
pub open spec fn spec_space_charge_divisor(energy: EnergyState) -> i64 {
    times(INJECTION_EMITTANCE, times(times(energy.beta, energy.gamma), energy.gamma))
}

/// The tune shift from space charge for a beam of intensity `intensity`:
/// minus three tenths of the intensity over the divisor; the shift as it
/// was if the divisor is not positive.
pub open spec fn spec_space_charge(previous: i64, intensity: i64, energy: EnergyState) -> i64 {
    let divisor = spec_space_charge_divisor(energy);
    if divisor > 0 {
        negate(scale(scale(intensity, 3, 10), ONE, divisor))
    } else {
        previous
    }
}

/// The tune shift from space charge.
#[verifier::when_used_as_spec(spec_space_charge)]
pub fn space_charge(previous: i64, intensity: i64, energy: EnergyState) -> (r: i64)
    ensures
        r == spec_space_charge(previous, intensity, energy),
{
    let divisor = times(INJECTION_EMITTANCE, times(times(energy.beta, energy.gamma), energy.gamma));
    if divisor > 0 {
        negate(scale(scale(intensity, 3, 10), ONE, divisor))
    } else {
        previous
    }
}

impl OpticsState {
    /// The optics of the bare lattice at injection.
    pub open spec fn spec_bare() -> OpticsState {
        OpticsState {
            tune_x: TUNE_X_BARE,
            tune_y: TUNE_Y_BARE,
            beta_x_max: BETA_X_BARE,
            beta_y_max: BETA_Y_BARE,
            dispersion_max: DISPERSION_BARE,
            chromaticity_x: CHROMATICITY_X_BARE,
            chromaticity_y: CHROMATICITY_Y_BARE,
            sc_tune_shift: 0,
        }
    }

    /// The optics after an update.
    ///
    /// Each tune is taken anew if the cell is stable in its plane, and kept
    /// if not; then the trim quadrupoles move the horizontal tune up and
    /// the vertical tune down by a twentieth of their sum. The beta
    /// functions are taken anew where the cell is strictly stable. The
    /// dispersion follows the slip factor. The chromaticities are the
    /// natural ones, minus the tune, corrected by the sextupoles: family A
    /// counts double horizontally and negatively vertically, family B
    /// counts once horizontally and double vertically.
    pub open spec fn spec_updated(
        &self,
        x: PlaneOptics,
        y: PlaneOptics,
        eta: i64,
        sums: CorrectorSums,
        intensity: i64,
        energy: EnergyState,
    ) -> OpticsState {
        let shift = scale(sums.trim_quad, TRIM_QUAD_NUM, TRIM_QUAD_DEN);
        let tune_x = plus(spec_bare_tune(self.tune_x, x), shift);
        let tune_y = minus(spec_bare_tune(self.tune_y, y), shift);
        OpticsState {
            tune_x,
            tune_y,
            beta_x_max: spec_beta_max(self.beta_x_max, x),
            beta_y_max: spec_beta_max(self.beta_y_max, y),
            dispersion_max: spec_dispersion(eta),
            chromaticity_x: plus(plus(negate(tune_x), scale(sums.sext_a, 2, 1)), sums.sext_b),
            chromaticity_y: plus(minus(negate(tune_y), sums.sext_a), scale(sums.sext_b, 2, 1)),
            sc_tune_shift: spec_space_charge(self.sc_tune_shift, intensity, energy),
        }
    }

    /// The optics of the bare lattice at injection.
    #[verifier::when_used_as_spec(spec_bare)]
    pub fn bare() -> (r: OpticsState)
        ensures
            r == Self::spec_bare(),
    {
        OpticsState {
            tune_x: TUNE_X_BARE,
            tune_y: TUNE_Y_BARE,
            beta_x_max: BETA_X_BARE,
            beta_y_max: BETA_Y_BARE,
            dispersion_max: DISPERSION_BARE,
            chromaticity_x: CHROMATICITY_X_BARE,
            chromaticity_y: CHROMATICITY_Y_BARE,
            sc_tune_shift: 0,
        }
    }

    /// The optics after an update from what the host has found for the cell
    /// matrix in both planes.
    #[verifier::when_used_as_spec(spec_updated)]
    pub fn updated(
        &self,
        x: PlaneOptics,
        y: PlaneOptics,
        eta: i64,
        sums: CorrectorSums,
        intensity: i64,
        energy: EnergyState,
    ) -> (r: OpticsState)
        ensures
            r == self.spec_updated(x, y, eta, sums, intensity, energy),
    {
        let shift = scale(sums.trim_quad, TRIM_QUAD_NUM, TRIM_QUAD_DEN);
        let tune_x = plus(bare_tune(self.tune_x, x), shift);
        let tune_y = minus(bare_tune(self.tune_y, y), shift);
        OpticsState {
            tune_x,
            tune_y,
            beta_x_max: beta_max(self.beta_x_max, x),
            beta_y_max: beta_max(self.beta_y_max, y),
            dispersion_max: dispersion(eta),
            chromaticity_x: plus(plus(negate(tune_x), scale(sums.sext_a, 2, 1)), sums.sext_b),
            chromaticity_y: plus(minus(negate(tune_y), sums.sext_a), scale(sums.sext_b, 2, 1)),
            sc_tune_shift: space_charge(self.sc_tune_shift, intensity, energy),
        }
    }
}

/// While the cell is unstable in both planes and the trim quadrupoles add up
/// to nothing, an update leaves tunes and beta functions as they were,
/// whatever the host has handed in.
pub proof fn lemma_unstable_cell_keeps_optics(
    optics: OpticsState,
    x: PlaneOptics,
    y: PlaneOptics,
    eta: i64,
    sums: CorrectorSums,
    intensity: i64,
    energy: EnergyState,
)
    requires
        !is_stable(x),
        !is_stable(y),
        sums.trim_quad == 0,
        -LIMIT <= optics.tune_x <= LIMIT,
        -LIMIT <= optics.tune_y <= LIMIT,
    ensures
        optics.updated(x, y, eta, sums, intensity, energy).tune_x == optics.tune_x,
        optics.updated(x, y, eta, sums, intensity, energy).tune_y == optics.tune_y,
        optics.updated(x, y, eta, sums, intensity, energy).beta_x_max == optics.beta_x_max,
        optics.updated(x, y, eta, sums, intensity, energy).beta_y_max == optics.beta_y_max,
{
}

/// The dispersion never diverges: it is never negative and never above
/// `MAX_DISPERSION`, which it takes where the slip factor is small.
#[verifier::rlimit(50)]
pub proof fn lemma_dispersion_is_capped(eta: i64)
    ensures
        0 <= dispersion(eta) <= MAX_DISPERSION,
        magnitude(eta) <= MIN_SLIP ==> dispersion(eta) == MAX_DISPERSION,
{
    let size = magnitude(eta);
    if size > MIN_SLIP {
        assert(size * GAMMA_TRANSITION_SQUARED >= 10_001 * GAMMA_TRANSITION_SQUARED)
            by (nonlinear_arith)
            requires
                size >= 10_001,
        ;
        let divisor = at_most(times(size, GAMMA_TRANSITION_SQUARED), MAX_DISPERSION);
        assert(divisor >= 64_000);
        assert(0 <= (DISPERSION_BARE * ONE) / (divisor as int) <= MAX_DISPERSION)
            by (nonlinear_arith)
            requires
                divisor >= 64_000,
        ;
    }
}

/// A chain of drifts has no gradient and a cosine of exactly one. No beta
/// function is taken from it, for the sine of its phase advance is zero and
/// nothing may be divided by it; and its tune is that of a phase advance of
/// zero.
pub proof fn lemma_drift_chain(previous: i64, m12: i64)
    ensures
        beta_max(previous, PlaneOptics { cos_mu: ONE, mu: 0, m12 }) == previous,
        bare_tune(previous, PlaneOptics { cos_mu: ONE, mu: 0, m12 }) == 0,
{
    assert(0 * CELLS / (TAU as int) == 0);
}

} // verus!
