//! What a lattice element does to the beam besides the linear transport
//! that the host computes: the focusing strength that the transport is to be
//! computed for, the shift from dispersion, and the angular kicks of the
//! bend bus and of the correctors.
//!
//! The quantities here are small, and are held in billionths: positions in
//! millimetres, angles in milliradians, gradients per square metre, the
//! momentum offset as a fraction. The settings of the machine stay in
//! millionths.

use vstd::prelude::*;
use crate::booster::BoosterGame;
use crate::corrector::CorrectorPackage;
use crate::energy::EnergyState;
use crate::fixed::{minus, negate, plus, scale, times, ONE};
use crate::lattice::{ElementType, LatticeElement, CORRECTOR_SLOT};

verus! {

/// What the product of two quantities in billionths is divided by to have
/// it in millionths.
pub const SQUARE: i64 = 1_000_000_000_000;

/// Focusing gradient of the F magnets at injection, in billionths.
pub const K1_F_INJECTION: i64 = 54_200_000;

/// Defocusing gradient of the D magnets at injection, in billionths.
pub const K1_D_INJECTION: i64 = 57_700_000;

/// The angle by which one magnet bends the beam, in billionths of a radian:
/// a ninety-sixth of a full turn.
pub const DIPOLE_ANGLE: i64 = 65_449_846;

/// The rigidity at injection, in millionths of a tesla metre.
pub const BRHO_INJECTION: i64 = 3_183_094;

/// `value` scaled by the rigidity at injection over the rigidity at
/// `energy`: the magnets follow a fixed current, so their strength falls as
/// the beam stiffens. Zero where the rigidity is not positive.
pub open spec fn spec_softened(value: i64, energy: EnergyState) -> i64 {
    if energy.brho > 0 {
        scale(value, BRHO_INJECTION, energy.brho)
    } else {
        0
    }
}

/// `value` scaled by the rigidity at injection over the rigidity at
/// `energy`.
#[verifier::when_used_as_spec(spec_softened)]
pub fn softened(value: i64, energy: EnergyState) -> (r: i64)
    ensures
        r == spec_softened(value, energy),
{
    if energy.brho > 0 {
        scale(value, BRHO_INJECTION, energy.brho)
    } else {
        0
    }
}

/// The magnitude of the gradient of a magnet whose gradient at injection is
/// `at_injection`, at `energy` and with the quadrupole bus trimmed by
/// `quad_bus_trim`.
pub open spec fn spec_gradient(at_injection: i64, energy: EnergyState, quad_bus_trim: i64) -> i64 {
    scale(spec_softened(at_injection, energy), plus(ONE, quad_bus_trim), ONE)
}

/// The gradients of an element in the horizontal and in the vertical plane,
/// in billionths: positive where it focuses. F magnets focus horizontally
/// and defocus vertically, D magnets the other way round, and drifts do
/// neither.
pub open spec fn spec_plane_gradients(
    elem_type: ElementType,
    energy: EnergyState,
    quad_bus_trim: i64,
) -> (i64, i64) {
    match elem_type {
        ElementType::FMagnet => {
            let k = spec_gradient(K1_F_INJECTION, energy, quad_bus_trim);
            (k, negate(k))
        },
        ElementType::DMagnet => {
            let k = spec_gradient(K1_D_INJECTION, energy, quad_bus_trim);
            (negate(k), k)
        },
        ElementType::ShortDrift | ElementType::LongDrift => (0, 0),
    }
}

/// The gradients of an element in the horizontal and in the vertical plane.
#[verifier::when_used_as_spec(spec_plane_gradients)]
pub fn plane_gradients(elem_type: ElementType, energy: EnergyState, quad_bus_trim: i64) -> (r: (
    i64,
    i64,
))
    ensures
        r == spec_plane_gradients(elem_type, energy, quad_bus_trim),
        r.0 == negate(r.1),
{
    match elem_type {
        ElementType::FMagnet => {
            let k = scale(softened(K1_F_INJECTION, energy), plus(ONE, quad_bus_trim), ONE);
            (k, negate(k))
        },
        ElementType::DMagnet => {
            let k = scale(softened(K1_D_INJECTION, energy), plus(ONE, quad_bus_trim), ONE);
            (negate(k), k)
        },
        ElementType::ShortDrift | ElementType::LongDrift => (0, 0),
    }
}

/// The angular kicks that the correctors of `package` give a beam at
/// `(x, y)`, in billionths.
///
/// The trim dipoles kick by their setting. The trim quadrupole kicks in
/// proportion to the position, toward the axis horizontally and away from
/// it vertically. The skew quadrupole kicks each plane in proportion to the
/// position in the other. The sextupoles kick horizontally in proportion to
/// the square of the horizontal position.
pub open spec fn spec_corrector_kicks(package: CorrectorPackage, x: i64, y: i64) -> (i64, i64) {
    let quad_x = scale(times(package.trim_quad, x), 1, 1000);
    let quad_y = scale(times(package.trim_quad, y), 1, 1000);
    let skew_x = scale(times(package.skew_quad, y), 1, 1000);
    let skew_y = scale(times(package.skew_quad, x), 1, 1000);
    let sext = scale(times(plus(package.sext_a, package.sext_b), scale(x, x, SQUARE)), 1, 1000);
    (
        minus(plus(minus(scale(package.h_trim, 1000, 1), quad_x), skew_x), sext),
        plus(plus(scale(package.v_trim, 1000, 1), quad_y), skew_y),
    )
}

/// The angular kicks that the correctors of `package` give a beam at
/// `(x, y)`.
#[verifier::when_used_as_spec(spec_corrector_kicks)]
pub fn corrector_kicks(package: CorrectorPackage, x: i64, y: i64) -> (r: (i64, i64))
    ensures
        r == spec_corrector_kicks(package, x, y),
{
    let quad_x = scale(times(package.trim_quad, x), 1, 1000);
    let quad_y = scale(times(package.trim_quad, y), 1, 1000);
    let skew_x = scale(times(package.skew_quad, y), 1, 1000);
    let skew_y = scale(times(package.skew_quad, x), 1, 1000);
    let sext = scale(times(plus(package.sext_a, package.sext_b), scale(x, x, SQUARE)), 1, 1000);
    (
        minus(plus(minus(scale(package.h_trim, 1000, 1), quad_x), skew_x), sext),
        plus(plus(scale(package.v_trim, 1000, 1), quad_y), skew_y),
    )
}

impl BoosterGame {
    /// By how much dispersion shifts a beam of momentum offset `dp` sideways
    /// before it enters `element`, in billionths of a millimetre: a tenth of
    /// the dispersion times the offset in a magnet, nothing in a drift.
    pub open spec fn spec_dispersion_shift(&self, element: LatticeElement, dp: i64) -> i64 {
        if element.elem_type.is_magnet() {
            scale(times(self.optics.dispersion_max, dp), 1, 10)
        } else {
            0
        }
    }

    /// By how much dispersion shifts the beam sideways before it enters
    /// `element`.
    #[verifier::when_used_as_spec(spec_dispersion_shift)]
    pub fn dispersion_shift(&self, element: LatticeElement, dp: i64) -> (r: i64)
        ensures
            r == self.spec_dispersion_shift(element, dp),
    {
        if element.elem_type.is_magnet() {
            scale(times(self.optics.dispersion_max, dp), 1, 10)
        } else {
            0
        }
    }

    /// The kick of the bend bus trim in one magnet, in billionths of a
    /// radian.
    pub open spec fn bend_kick(&self) -> i64 {
        spec_softened(times(self.bend_bus_trim, DIPOLE_ANGLE), self.energy)
    }

    /// The angular kicks on a beam that leaves `element` at `(x, y)`, in
    /// billionths.
    ///
    /// A magnet kicks horizontally by the trim of the bend bus. The long
    /// drift holds the correctors of its cell, and kicks with them. No other
    /// element kicks, nor does an element of a cell that does not exist.
    pub open spec fn spec_angle_kicks(&self, element: LatticeElement, x: i64, y: i64) -> (i64, i64) {
        if element.elem_type.is_magnet() {
            (self.bend_kick(), 0)
        } else if element.index == CORRECTOR_SLOT && element.cell < self.correctors@.len() {
            spec_corrector_kicks(self.correctors@[element.cell as int], x, y)
        } else {
            (0, 0)
        }
    }

    /// The angular kicks on a beam that leaves `element` at `(x, y)`.
    #[verifier::when_used_as_spec(spec_angle_kicks)]
    pub fn angle_kicks(&self, element: LatticeElement, x: i64, y: i64) -> (r: (i64, i64))
        ensures
            r == self.spec_angle_kicks(element, x, y),
    {
        if element.elem_type.is_magnet() {
            (softened(times(self.bend_bus_trim, DIPOLE_ANGLE), self.energy), 0)
        } else if element.index == CORRECTOR_SLOT && element.cell < self.correctors.len() {
            corrector_kicks(self.correctors[element.cell], x, y)
        } else {
            (0, 0)
        }
    }

    /// The gradients, in the horizontal and in the vertical plane, for which
    /// the host is to compute the transport through `element`.
    pub fn gradients(&self, element: LatticeElement) -> (r: (i64, i64))
        ensures
            r == spec_plane_gradients(element.elem_type, self.energy, self.quad_bus_trim),
    {
        plane_gradients(element.elem_type, self.energy, self.quad_bus_trim)
    }
}

/// With every corrector off, the correctors kick no beam, wherever it is.
#[verifier::rlimit(50)]
pub proof fn lemma_correctors_off_kick_nothing(x: i64, y: i64)
    ensures
        spec_corrector_kicks(
            CorrectorPackage {
                h_trim: 0,
                v_trim: 0,
                trim_quad: 0,
                skew_quad: 0,
                sext_a: 0,
                sext_b: 0,
            },
            x,
            y,
        ) == (0i64, 0i64),
{
    assert(0 * x == 0 && 0 * y == 0) by (nonlinear_arith);
    let xx = scale(x, x, SQUARE);
    assert(0 * xx == 0) by (nonlinear_arith);
}

/// A beam on the axis is kicked by the trim dipoles alone: the kicks of the
/// quadrupoles and sextupoles vanish with the distance from the axis.
#[verifier::rlimit(50)]
pub proof fn lemma_on_axis_only_trims_kick(package: CorrectorPackage)
    requires
        -1_000_000_000 <= package.h_trim <= 1_000_000_000,
        -1_000_000_000 <= package.v_trim <= 1_000_000_000,
    ensures
        spec_corrector_kicks(package, 0, 0) == ((package.h_trim * 1000) as i64, (package.v_trim
            * 1000) as i64),
{
    assert(package.trim_quad * 0 == 0 && package.skew_quad * 0 == 0) by (nonlinear_arith);
    let s = plus(package.sext_a, package.sext_b);
    assert(s * 0 == 0) by (nonlinear_arith);
}

} // verus!
