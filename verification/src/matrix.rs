//! Transfer matrices of one plane, in billionths.
//!
//! A matrix carries position and angle of the beam through an element. The
//! gradient of an element decides which form its matrix has. The matrix of
//! a drift is made here. The matrix of a lens needs the circular or the
//! hyperbolic sine and cosine of its phase advance, and is found by the
//! host.

use vstd::prelude::*;
use crate::fixed::{plus, scale, LIMIT};
use crate::lattice::{LONG_DRIFT, MAGNET_LENGTH, SHORT_DRIFT};

verus! {

/// A billion: the fixed-point representation of 1 for the fine quantities,
/// which are held in billionths.
pub const BILLION: i64 = 1_000_000_000;

/// The fine fixed-point product: `a * b / BILLION`, rounded toward zero and
/// saturating.
pub open spec fn spec_times_fine(a: i64, b: i64) -> i64 {
    scale(a, b, BILLION)
}

/// The fine fixed-point product.
#[verifier::when_used_as_spec(spec_times_fine)]
pub fn times_fine(a: i64, b: i64) -> (r: i64)
    ensures
        r == spec_times_fine(a, b),
        -LIMIT <= r <= LIMIT,
{
    scale(a, b, BILLION)
}

/// A quantity in millionths as a quantity in billionths.
pub open spec fn spec_refined(millionths: i64) -> i64 {
    scale(millionths, 1000, 1)
}

/// A quantity in millionths as a quantity in billionths.
#[verifier::when_used_as_spec(spec_refined)]
pub fn refined(millionths: i64) -> (r: i64)
    ensures
        r == spec_refined(millionths),
{
    scale(millionths, 1000, 1)
}

/// A quantity in billionths as a quantity in millionths, rounded toward
/// zero.
pub open spec fn spec_coarse(billionths: i64) -> i64 {
    scale(billionths, 1, 1000)
}

/// A quantity in billionths as a quantity in millionths.
#[verifier::when_used_as_spec(spec_coarse)]
pub fn coarse(billionths: i64) -> (r: i64)
    ensures
        r == spec_coarse(billionths),
{
    scale(billionths, 1, 1000)
}

/// The transfer matrix of one plane.
#[derive(Clone, Copy, PartialEq, Eq, Structural, Debug)]
pub struct Matrix2 {
    pub m11: i64,
    pub m12: i64,
    pub m21: i64,
    pub m22: i64,
}

impl Matrix2 {
    /// The matrix that changes nothing.
    pub open spec fn spec_identity() -> Matrix2 {
        Matrix2 { m11: BILLION, m12: 0, m21: 0, m22: BILLION }
    }

    /// The matrix of a drift of `length` micrometres: the position moves on
    /// by the angle times the length, the angle stays.
    pub open spec fn spec_drift(length: i64) -> Matrix2 {
        Matrix2 { m11: BILLION, m12: spec_refined(length), m21: 0, m22: BILLION }
    }

    /// Position and angle behind the element, for a beam that enters it at
    /// position `x` with angle `xp`.
    pub open spec fn spec_apply(&self, x: i64, xp: i64) -> (i64, i64) {
        (
            plus(spec_times_fine(self.m11, x), spec_times_fine(self.m12, xp)),
            plus(spec_times_fine(self.m21, x), spec_times_fine(self.m22, xp)),
        )
    }

    /// The matrix of this element behind `other`: the product of the two.
    pub open spec fn spec_multiply(&self, other: &Matrix2) -> Matrix2 {
        Matrix2 {
            m11: plus(spec_times_fine(self.m11, other.m11), spec_times_fine(self.m12, other.m21)),
            m12: plus(spec_times_fine(self.m11, other.m12), spec_times_fine(self.m12, other.m22)),
            m21: plus(spec_times_fine(self.m21, other.m11), spec_times_fine(self.m22, other.m21)),
            m22: plus(spec_times_fine(self.m21, other.m12), spec_times_fine(self.m22, other.m22)),
        }
    }

    /// Half the trace, in millionths: for the matrix of a stable cell, the
    /// cosine of its phase advance.
    pub open spec fn spec_half_trace(&self) -> i64 {
        spec_coarse(scale(plus(self.m11, self.m22), 1, 2))
    }

    /// The determinant, exactly, in units of a billionth of a billionth.
    pub open spec fn determinant(&self) -> int {
        self.m11 * self.m22 - self.m12 * self.m21
    }

    /// The matrix that changes nothing.
    #[verifier::when_used_as_spec(spec_identity)]
    pub fn identity() -> (r: Matrix2)
        ensures
            r == Self::spec_identity(),
    {
        Matrix2 { m11: BILLION, m12: 0, m21: 0, m22: BILLION }
    }

    /// The matrix of a drift of `length` micrometres.
    #[verifier::when_used_as_spec(spec_drift)]
    pub fn drift(length: i64) -> (r: Matrix2)
        ensures
            r == Self::spec_drift(length),
    {
        Matrix2 { m11: BILLION, m12: refined(length), m21: 0, m22: BILLION }
    }

    /// Position and angle behind the element.
    #[verifier::when_used_as_spec(spec_apply)]
    pub fn apply(&self, x: i64, xp: i64) -> (r: (i64, i64))
        ensures
            r == self.spec_apply(x, xp),
    {
        (
            plus(times_fine(self.m11, x), times_fine(self.m12, xp)),
            plus(times_fine(self.m21, x), times_fine(self.m22, xp)),
        )
    }

    /// The product of this matrix and `other`.
    #[verifier::when_used_as_spec(spec_multiply)]
    pub fn multiply(&self, other: &Matrix2) -> (r: Matrix2)
        ensures
            r == self.spec_multiply(other),
    {
        Matrix2 {
            m11: plus(times_fine(self.m11, other.m11), times_fine(self.m12, other.m21)),
            m12: plus(times_fine(self.m11, other.m12), times_fine(self.m12, other.m22)),
            m21: plus(times_fine(self.m21, other.m11), times_fine(self.m22, other.m21)),
            m22: plus(times_fine(self.m21, other.m12), times_fine(self.m22, other.m22)),
        }
    }

    /// Half the trace, in millionths.
    #[verifier::when_used_as_spec(spec_half_trace)]
    pub fn half_trace(&self) -> (r: i64)
        ensures
            r == self.spec_half_trace(),
    {
        coarse(scale(plus(self.m11, self.m22), 1, 2))
    }
}

/// The form that the transfer matrix of an element has in one plane.
#[derive(Clone, Copy, PartialEq, Eq, Structural, Debug)]
pub enum LensForm {
    /// No gradient: position moves on with the angle, the angle stays.
    Drift,
    /// A focusing gradient: a rotation in phase space.
    Focusing,
    /// A defocusing gradient: the hyperbolic twin of the rotation.
    Defocusing,
}

/// The form of the matrix of an element of gradient `gradient`: a drift
/// where the gradient vanishes, focusing where it is positive, defocusing
/// where it is negative.
pub open spec fn spec_lens_form(gradient: i64) -> LensForm {
    if gradient == 0 {
        LensForm::Drift
    } else if gradient > 0 {
        LensForm::Focusing
    } else {
        LensForm::Defocusing
    }
}

/// The form of the matrix of an element of gradient `gradient`.
#[verifier::when_used_as_spec(spec_lens_form)]
pub fn lens_form(gradient: i64) -> (r: LensForm)
    ensures
        r == spec_lens_form(gradient),
{
    if gradient == 0 {
        LensForm::Drift
    } else if gradient > 0 {
        LensForm::Focusing
    } else {
        LensForm::Defocusing
    }
}

/// The matrix of an element of gradient `gradient` and length `length`
/// micrometres: that of a drift of its length where the gradient vanishes,
/// and else `found`, which the host has found for the lens.
pub open spec fn spec_lens_matrix(gradient: i64, length: i64, found: Matrix2) -> Matrix2 {
    if spec_lens_form(gradient) == LensForm::Drift {
        Matrix2::spec_drift(length)
    } else {
        found
    }
}

/// The matrix of an element of gradient `gradient` and length `length`.
/// What the host has found is not looked at where the gradient vanishes.
#[verifier::when_used_as_spec(spec_lens_matrix)]
pub fn lens_matrix(gradient: i64, length: i64, found: Matrix2) -> (r: Matrix2)
    ensures
        r == spec_lens_matrix(gradient, length, found),
        gradient == 0 ==> r == Matrix2::spec_drift(length),
        gradient != 0 ==> r == found,
{
    match lens_form(gradient) {
        LensForm::Drift => Matrix2::drift(length),
        LensForm::Focusing => found,
        LensForm::Defocusing => found,
    }
}

/// The length of a cell, in micrometres: four magnets, a short drift and a
/// long one.
pub const CELL_LENGTH: i64 = 18_756_000;

/// The matrix of a cell in one plane, from the matrices `f` and `d` of its
/// two kinds of magnet in that plane: F, short drift, F, D, long drift, D.
pub open spec fn spec_cell_matrix(f: Matrix2, d: Matrix2) -> Matrix2 {
    let short = Matrix2::spec_drift(SHORT_DRIFT);
    let long = Matrix2::spec_drift(LONG_DRIFT);
    f.spec_multiply(&short).spec_multiply(&f).spec_multiply(&d).spec_multiply(&long).spec_multiply(
        &d,
    )
}

/// The matrix of a cell in one plane.
#[verifier::when_used_as_spec(spec_cell_matrix)]
pub fn cell_matrix(f: Matrix2, d: Matrix2) -> (r: Matrix2)
    ensures
        r == spec_cell_matrix(f, d),
{
    let short = Matrix2::drift(SHORT_DRIFT);
    let long = Matrix2::drift(LONG_DRIFT);
    f.multiply(&short).multiply(&f).multiply(&d).multiply(&long).multiply(&d)
}

/// The identity changes nothing: a beam within range leaves it as it
/// entered.
pub proof fn lemma_identity_changes_nothing(x: i64, xp: i64)
    requires
        -LIMIT <= x <= LIMIT,
        -LIMIT <= xp <= LIMIT,
    ensures
        Matrix2::spec_identity().spec_apply(x, xp) == (x, xp),
{
    assert(BILLION * x / (BILLION as int) == x) by (nonlinear_arith);
    assert((-(BILLION * x)) / (BILLION as int) == -x) by (nonlinear_arith);
    assert(BILLION * xp / (BILLION as int) == xp) by (nonlinear_arith);
    assert((-(BILLION * xp)) / (BILLION as int) == -xp) by (nonlinear_arith);
    assert(x >= 0 ==> BILLION * x >= 0) by (nonlinear_arith);
    assert(x < 0 ==> BILLION * x < 0) by (nonlinear_arith);
    assert(xp >= 0 ==> BILLION * xp >= 0) by (nonlinear_arith);
    assert(xp < 0 ==> BILLION * xp < 0) by (nonlinear_arith);
    assert(0 * x == 0 && 0 * xp == 0) by (nonlinear_arith);
}

/// A drift is symplectic, exactly: its determinant is one. And it leaves
/// the angle of a beam within range as it was.
pub proof fn lemma_drift_is_symplectic(length: i64, x: i64, xp: i64)
    requires
        -LIMIT <= xp <= LIMIT,
    ensures
        Matrix2::spec_drift(length).determinant() == BILLION * BILLION,
        Matrix2::spec_drift(length).spec_apply(x, xp).1 == xp,
{
    let m = Matrix2::spec_drift(length);
    assert(m.m12 * 0 == 0) by (nonlinear_arith);
    assert(BILLION * xp / (BILLION as int) == xp) by (nonlinear_arith);
    assert((-(BILLION * xp)) / (BILLION as int) == -xp) by (nonlinear_arith);
    assert(xp >= 0 ==> BILLION * xp >= 0) by (nonlinear_arith);
    assert(xp < 0 ==> BILLION * xp < 0) by (nonlinear_arith);
    assert(0 * x == 0) by (nonlinear_arith);
}

/// A drift behind a drift is a drift of both lengths together, as long as
/// that is within range. The lengths are those that stand in the matrices,
/// in billionths.
pub proof fn lemma_drifts_compose(first: i64, second: i64)
    requires
        0 <= first,
        0 <= second,
        first + second <= LIMIT,
    ensures
        (Matrix2 { m11: BILLION, m12: second, m21: 0, m22: BILLION }).spec_multiply(
            &(Matrix2 { m11: BILLION, m12: first, m21: 0, m22: BILLION }),
        ) == (Matrix2 { m11: BILLION, m12: (first + second) as i64, m21: 0, m22: BILLION }),
{
    assert(BILLION * BILLION / (BILLION as int) == BILLION) by (nonlinear_arith);
    assert(BILLION * first / (BILLION as int) == first) by (nonlinear_arith);
    assert(second * BILLION / (BILLION as int) == second) by (nonlinear_arith);
    assert(BILLION * first >= 0) by (nonlinear_arith)
        requires
            first >= 0,
    ;
    assert(second * BILLION >= 0) by (nonlinear_arith)
        requires
            second >= 0,
    ;
    assert(second * 0 == 0 && 0 * first == 0 && 0 * BILLION == 0 && BILLION * 0 == 0)
        by (nonlinear_arith);
}

/// With no gradient in either kind of magnet the cell is a chain of
/// drifts: its matrix is that of one drift of the length of the cell, and
/// half its trace is exactly one.
pub proof fn lemma_cell_without_gradient()
    ensures
        spec_cell_matrix(
            spec_lens_matrix(0, MAGNET_LENGTH, Matrix2::spec_identity()),
            spec_lens_matrix(0, MAGNET_LENGTH, Matrix2::spec_identity()),
        ) == Matrix2::spec_drift(CELL_LENGTH),
        Matrix2::spec_drift(CELL_LENGTH).spec_half_trace() == crate::fixed::ONE,
        Matrix2::spec_drift(CELL_LENGTH).determinant() == BILLION * BILLION,
{
    let magnet = spec_refined(MAGNET_LENGTH);
    let short = spec_refined(SHORT_DRIFT);
    let long = spec_refined(LONG_DRIFT);
    assert(magnet == 2_889_000_000 && short == 1_200_000_000 && long == 6_000_000_000);
    // The chain is multiplied from the left: each factor stands before what
    // has been gathered so far.
    lemma_drifts_compose(short, magnet);
    lemma_drifts_compose(magnet, (short + magnet) as i64);
    lemma_drifts_compose(magnet, (short + 2 * magnet) as i64);
    lemma_drifts_compose(long, (short + 3 * magnet) as i64);
    lemma_drifts_compose(magnet, (short + 3 * magnet + long) as i64);
    assert(spec_refined(CELL_LENGTH) == short + 4 * magnet + long);
    assert(Matrix2::spec_drift(CELL_LENGTH).m12 * 0 == 0) by (nonlinear_arith);
}

} // verus!
