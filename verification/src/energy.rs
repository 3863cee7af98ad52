//! The energy ramp and the kinematics of the proton.
//!
//! The kinetic energy follows half a period of a cosine from injection to
//! extraction. The host evaluates the cosine; everything that follows from
//! it is arithmetic, and is done here: the Lorentz factor, the velocity, the
//! momentum, the magnetic rigidity and the slip factor. Energies are in GeV,
//! all in millionths.

use vstd::prelude::*;
use crate::fixed::{clamp, magnitude, minus, plus, scale, times, LIMIT, ONE};

verus! {

/// Kinetic energy at injection.
pub const E_INJECTION: i64 = 400_000;

/// Kinetic energy at extraction.
pub const E_EXTRACTION: i64 = 8_000_000;

/// Half the energy that the ramp adds.
pub const HALF_SPAN: i64 = 3_800_000;

/// Rest energy of the proton.
pub const PROTON_MASS: i64 = 938_270;

/// The Lorentz factor at transition.
pub const GAMMA_TRANSITION: i64 = 5_446_000;

/// The rigidity in tesla metres is the momentum in GeV/c times this over
/// `RIGIDITY_DEN`.
pub const RIGIDITY_NUM: i64 = 100_000;

pub const RIGIDITY_DEN: i64 = 29_979;

/// Whether `r` is the integer square root of `n`: the largest integer whose
/// square is not above `n`.
pub open spec fn is_root(n: int, r: int) -> bool {
    0 <= r && r * r <= n < (r + 1) * (r + 1)
}

/// The integer square root of `n`; 0 for a negative `n`.
pub open spec fn spec_root(n: int) -> int {
    if n <= 0 {
        0
    } else {
        choose|r: int| is_root(n, r)
    }
}

/// No number has two integer square roots.
#[verifier::rlimit(50)]
pub proof fn lemma_root_unique(n: int, a: int, b: int)
    requires
        is_root(n, a),
        is_root(n, b),
    ensures
        a == b,
{
    if a < b {
        assert((a + 1) * (a + 1) <= b * b) by (nonlinear_arith)
            requires
                0 <= a + 1 <= b,
        ;
    }
    if b < a {
        assert((b + 1) * (b + 1) <= a * a) by (nonlinear_arith)
            requires
                0 <= b + 1 <= a,
        ;
    }
}

/// The integer square root of `n`.
pub fn root(n: u64) -> (r: u64)
    ensures
        is_root(n as int, r as int),
        r == spec_root(n as int),
        r < 0x1_0000_0000,
{
    let mut lo: u64 = 0;
    let mut hi: u64 = 0x1_0000_0000;
    assert(0x1_0000_0000int * 0x1_0000_0000int == 0x1_0000_0000_0000_0000int);
    while hi - lo > 1
        invariant
            lo < hi <= 0x1_0000_0000,
            lo * lo <= n < hi * hi,
        decreases hi - lo,
    {
        let mid = lo + (hi - lo) / 2;
        assert(mid * mid <= 0xffff_ffff * 0xffff_ffff) by (nonlinear_arith)
            requires
                0 <= mid <= 0xffff_ffff,
        ;
        if mid * mid <= n {
            lo = mid;
        } else {
            hi = mid;
        }
    }
    proof {
        assert(is_root(n as int, lo as int));
        if n > 0 {
            lemma_root_unique(n as int, lo as int, spec_root(n as int));
        } else {
            assert(lo == 0) by (nonlinear_arith)
                requires
                    lo * lo <= 0,
                    lo >= 0,
            ;
        }
    }
    lo
}

/// The square root of a fixed-point quantity, rounded down; 0 for a
/// quantity that is not positive. Quantities above `LIMIT` count as `LIMIT`.
pub open spec fn spec_sqrt(x: i64) -> i64 {
    if x <= 0 {
        0
    } else if x > LIMIT {
        spec_root(LIMIT * ONE) as i64
    } else {
        spec_root(x * ONE) as i64
    }
}

/// The square root of a fixed-point quantity, rounded down.
#[verifier::when_used_as_spec(spec_sqrt)]
pub fn sqrt(x: i64) -> (r: i64)
    ensures
        r == spec_sqrt(x),
        0 <= r < 0x1_0000_0000,
{
    if x <= 0 {
        0
    } else {
        let bounded = if x > LIMIT {
            LIMIT
        } else {
            x
        };
        root((bounded * ONE) as u64) as i64
    }
}

/// The kinetic energy at the point of the ramp where the cosine of the ramp
/// angle is `cos_value`: injection energy where the cosine is 1, extraction
/// energy where it is -1. A value outside `[-1, 1]` counts as the nearer
/// end.
pub open spec fn spec_kinetic_energy(cos_value: i64) -> i64 {
    plus(E_INJECTION, times(HALF_SPAN, minus(ONE, clamp(cos_value, (-ONE) as i64, ONE))))
}

/// The Lorentz factor at kinetic energy `ke`.
pub open spec fn spec_kinetic_to_gamma(ke: i64) -> i64 {
    scale(plus(ke, PROTON_MASS), ONE, PROTON_MASS)
}

/// One over the square of `gamma`; 0 where `gamma` is not positive.
pub open spec fn spec_inverse_square(gamma: i64) -> i64 {
    if gamma > 0 {
        scale(scale(ONE, ONE, gamma), ONE, gamma)
    } else {
        0
    }
}

/// The velocity, as a fraction of that of light, at Lorentz factor `gamma`.
pub open spec fn spec_gamma_to_beta(gamma: i64) -> i64 {
    sqrt(minus(ONE, spec_inverse_square(gamma)))
}

/// The momentum in GeV/c at Lorentz factor `gamma`.
pub open spec fn spec_gamma_to_momentum(gamma: i64) -> i64 {
    times(times(gamma, spec_gamma_to_beta(gamma)), PROTON_MASS)
}

/// The magnetic rigidity in tesla metres at Lorentz factor `gamma`.
pub open spec fn spec_gamma_to_brho(gamma: i64) -> i64 {
    scale(spec_gamma_to_momentum(gamma), RIGIDITY_NUM, RIGIDITY_DEN)
}

/// The slip factor at Lorentz factor `gamma`: negative below transition,
/// positive above.
pub open spec fn spec_slip_factor(gamma: i64) -> i64 {
    minus(spec_inverse_square(GAMMA_TRANSITION), spec_inverse_square(gamma))
}

/// The Lorentz factor `gamma` over its value at transition.
pub open spec fn spec_gamma_ratio(gamma: i64) -> i64 {
    scale(gamma, ONE, GAMMA_TRANSITION)
}

/// The kinetic energy at the point of the ramp where the cosine of the ramp
/// angle is `cos_value`.
#[verifier::when_used_as_spec(spec_kinetic_energy)]
pub fn kinetic_energy(cos_value: i64) -> (r: i64)
    ensures
        r == spec_kinetic_energy(cos_value),
{
    plus(E_INJECTION, times(HALF_SPAN, minus(ONE, clamp(cos_value, -ONE, ONE))))
}

/// The Lorentz factor at kinetic energy `ke`.
#[verifier::when_used_as_spec(spec_kinetic_to_gamma)]
pub fn kinetic_to_gamma(ke: i64) -> (r: i64)
    ensures
        r == spec_kinetic_to_gamma(ke),
{
    scale(plus(ke, PROTON_MASS), ONE, PROTON_MASS)
}

/// One over the square of `gamma`; 0 where `gamma` is not positive.
#[verifier::when_used_as_spec(spec_inverse_square)]
pub fn inverse_square(gamma: i64) -> (r: i64)
    ensures
        r == spec_inverse_square(gamma),
{
    if gamma > 0 {
        scale(scale(ONE, ONE, gamma), ONE, gamma)
    } else {
        0
    }
}

/// The velocity, as a fraction of that of light, at Lorentz factor `gamma`.
#[verifier::when_used_as_spec(spec_gamma_to_beta)]
pub fn gamma_to_beta(gamma: i64) -> (r: i64)
    ensures
        r == spec_gamma_to_beta(gamma),
{
    sqrt(minus(ONE, inverse_square(gamma)))
}

/// The momentum in GeV/c at Lorentz factor `gamma`.
#[verifier::when_used_as_spec(spec_gamma_to_momentum)]
pub fn gamma_to_momentum(gamma: i64) -> (r: i64)
    ensures
        r == spec_gamma_to_momentum(gamma),
{
    let beta = gamma_to_beta(gamma);
    times(times(gamma, beta), PROTON_MASS)
}

/// The magnetic rigidity in tesla metres at Lorentz factor `gamma`.
#[verifier::when_used_as_spec(spec_gamma_to_brho)]
pub fn gamma_to_brho(gamma: i64) -> (r: i64)
    ensures
        r == spec_gamma_to_brho(gamma),
{
    scale(gamma_to_momentum(gamma), RIGIDITY_NUM, RIGIDITY_DEN)
}

/// The slip factor at Lorentz factor `gamma`.
#[verifier::when_used_as_spec(spec_slip_factor)]
pub fn slip_factor(gamma: i64) -> (r: i64)
    ensures
        r == spec_slip_factor(gamma),
{
    minus(inverse_square(GAMMA_TRANSITION), inverse_square(gamma))
}

/// The Lorentz factor `gamma` over its value at transition.
#[verifier::when_used_as_spec(spec_gamma_ratio)]
pub fn gamma_ratio(gamma: i64) -> (r: i64)
    ensures
        r == spec_gamma_ratio(gamma),
{
    scale(gamma, ONE, GAMMA_TRANSITION)
}

/// Pi times the number of RF buckets round the ring, which is 84.
pub const PI_HARMONIC: i64 = 263_893_783;

/// The half-height of the RF bucket where the slip factor vanishes.
pub const MIN_BUCKET: i64 = 1_000;

/// The square root, in millionths, of a quantity given in billionths; 0 for
/// a quantity that is not positive.
pub open spec fn spec_sqrt_fine(x: i64) -> i64 {
    if x <= 0 {
        0
    } else if x > LIMIT {
        spec_root(LIMIT * 1000) as i64
    } else {
        spec_root(x * 1000) as i64
    }
}

/// The square root, in millionths, of a quantity given in billionths.
#[verifier::when_used_as_spec(spec_sqrt_fine)]
pub fn sqrt_fine(x: i64) -> (r: i64)
    ensures
        r == spec_sqrt_fine(x),
        0 <= r < 0x1_0000_0000,
{
    if x <= 0 {
        0
    } else {
        let bounded = if x > LIMIT {
            LIMIT
        } else {
            x
        };
        root((bounded * 1000) as u64) as i64
    }
}

/// Energy and what follows from it, at one turn of the cycle.
#[derive(Clone, Copy, PartialEq, Eq, Structural, Debug)]
pub struct EnergyState {
    pub turn: u32,
    /// Kinetic energy.
    pub ke: i64,
    /// Lorentz factor.
    pub gamma: i64,
    /// Velocity as a fraction of that of light.
    pub beta: i64,
    /// Magnetic rigidity.
    pub brho: i64,
}

impl EnergyState {
    /// The energy state at turn `turn`, where the cosine of the ramp angle
    /// is `cos_value`.
    pub open spec fn spec_at(turn: u32, cos_value: i64) -> EnergyState {
        let ke = spec_kinetic_energy(cos_value);
        let gamma = spec_kinetic_to_gamma(ke);
        EnergyState {
            turn,
            ke,
            gamma,
            beta: spec_gamma_to_beta(gamma),
            brho: spec_gamma_to_brho(gamma),
        }
    }

    /// The energy state at turn `turn`, where the cosine of the ramp angle
    /// is `cos_value`.
    #[verifier::when_used_as_spec(spec_at)]
    pub fn at(turn: u32, cos_value: i64) -> (r: EnergyState)
        ensures
            r == Self::spec_at(turn, cos_value),
    {
        let ke = kinetic_energy(cos_value);
        let gamma = kinetic_to_gamma(ke);
        EnergyState { turn, ke, gamma, beta: gamma_to_beta(gamma), brho: gamma_to_brho(gamma) }
    }

    /// The energy state at injection: turn 0, where the ramp angle is zero.
    pub fn injection() -> (r: EnergyState)
        ensures
            r == Self::spec_at(0, ONE),
            r.ke == E_INJECTION,
    {
        proof {
            lemma_ramp_ends();
        }
        Self::at(0, ONE)
    }
}

/// The ramp begins at injection energy and ends at extraction energy.
#[verifier::rlimit(50)]
pub proof fn lemma_ramp_ends()
    ensures
        kinetic_energy(ONE) == E_INJECTION,
        kinetic_energy((-ONE) as i64) == E_EXTRACTION,
{
    assert(HALF_SPAN * 0 / (ONE as int) == 0);
    assert(HALF_SPAN * (2 * ONE) / (ONE as int) == 2 * HALF_SPAN) by (nonlinear_arith);
}

/// The energy never falls while the cosine of the ramp angle falls, as it
/// does from the beginning of the cycle to its end; nor does the Lorentz
/// factor.
#[verifier::rlimit(50)]
pub proof fn lemma_energy_rises_as_cosine_falls(earlier: i64, later: i64)
    requires
        later <= earlier,
    ensures
        kinetic_energy(earlier) <= kinetic_energy(later),
        kinetic_to_gamma(kinetic_energy(earlier)) <= kinetic_to_gamma(kinetic_energy(later)),
        E_INJECTION <= kinetic_energy(earlier) <= E_EXTRACTION,
{
    let a = minus(ONE, clamp(earlier, (-ONE) as i64, ONE));
    let b = minus(ONE, clamp(later, (-ONE) as i64, ONE));
    assert(0 <= a <= b <= 2 * ONE);
    assert(0 <= HALF_SPAN * a <= HALF_SPAN * b <= HALF_SPAN * (2 * ONE)) by (nonlinear_arith)
        requires
            0 <= a <= b <= 2 * ONE,
    ;
    assert(HALF_SPAN * (2 * ONE) / (ONE as int) == 2 * HALF_SPAN) by (nonlinear_arith);
    let pa = HALF_SPAN * a;
    let pb = HALF_SPAN * b;
    assert(0 <= pa / (ONE as int) <= pb / (ONE as int) <= 2 * HALF_SPAN) by (nonlinear_arith)
        requires
            0 <= pa <= pb <= HALF_SPAN * (2 * ONE),
            HALF_SPAN * (2 * ONE) / (ONE as int) == 2 * HALF_SPAN,
    ;
    let ka = kinetic_energy(earlier);
    let kb = kinetic_energy(later);
    assert(E_INJECTION <= ka <= kb <= E_EXTRACTION);
    let ga = (ka + PROTON_MASS) * ONE;
    let gb = (kb + PROTON_MASS) * ONE;
    assert(0 <= ga <= gb) by (nonlinear_arith)
        requires
            ga == (ka + PROTON_MASS) * ONE,
            gb == (kb + PROTON_MASS) * ONE,
            0 <= ka + PROTON_MASS <= kb + PROTON_MASS,
    ;
    assert(ga / (PROTON_MASS as int) <= gb / (PROTON_MASS as int)) by (nonlinear_arith)
        requires
            0 <= ga <= gb,
    ;
    assert(gb / (PROTON_MASS as int) <= LIMIT) by (nonlinear_arith)
        requires
            gb == (kb + PROTON_MASS) * ONE,
            kb <= E_EXTRACTION,
    ;
    assert(ga / (PROTON_MASS as int) >= 0) by (nonlinear_arith)
        requires
            0 <= ga,
    ;
}

/// What is under the root of the bucket height, in billionths: twice the
/// RF voltage in gigavolts times the square of the velocity times the total
/// energy, over pi times the harmonic number times the magnitude `slip` of
/// the slip factor. The voltage is given in megavolts.
pub open spec fn spec_bucket_square(energy: EnergyState, rf_voltage: i64, slip: i64) -> i64 {
    let stiffness = times(times(energy.beta, energy.beta), plus(energy.ke, PROTON_MASS));
    scale(scale(times(rf_voltage, stiffness), 2, 1), ONE, times(PI_HARMONIC, slip))
}

/// The half-height of the RF bucket at `energy` for an RF voltage of
/// `rf_voltage` megavolts, in GeV: the largest energy deviation that the RF
/// still holds. Where the slip factor all but vanishes, at transition, the
/// bucket is `MIN_BUCKET` high.
pub open spec fn spec_bucket_height(energy: EnergyState, rf_voltage: i64) -> i64 {
    let slip = magnitude(spec_slip_factor(energy.gamma));
    if slip > 1 {
        spec_sqrt_fine(spec_bucket_square(energy, rf_voltage, slip))
    } else {
        MIN_BUCKET
    }
}

/// The half-height of the RF bucket at `energy` for an RF voltage of
/// `rf_voltage` megavolts.
#[verifier::when_used_as_spec(spec_bucket_height)]
pub fn bucket_height(energy: EnergyState, rf_voltage: i64) -> (r: i64)
    ensures
        r == spec_bucket_height(energy, rf_voltage),
        0 <= r,
{
    let slip = magnitude(slip_factor(energy.gamma));
    if slip > 1 {
        assert(PI_HARMONIC * slip >= PI_HARMONIC * 2) by (nonlinear_arith)
            requires
                slip >= 2,
        ;
        let stiffness = times(times(energy.beta, energy.beta), plus(energy.ke, PROTON_MASS));
        let divisor = times(PI_HARMONIC, slip);
        sqrt_fine(scale(scale(times(rf_voltage, stiffness), 2, 1), ONE, divisor))
    } else {
        MIN_BUCKET
    }
}

} // verus!
