//! The aperture and the loss model.
//!
//! A beam whose centre leaves the aperture is lost at once. A beam whose edge
//! (centre plus or minus half its size) reaches past the loss zone sheds
//! particles in proportion to how far it protrudes; what is shed adds up, and
//! the beam is lost when the total reaches `MAX_LOSSES`.

use vstd::prelude::*;
use crate::fixed::{in_range, minus, plus, scale, LIMIT};

verus! {

/// Half-width of the aperture, in millionths of a display unit.
pub const APERTURE: i64 = 50_000_000;

/// Distance from the axis beyond which the beam edge sheds particles.
pub const LOSS_ZONE: i64 = 25_000_000;

/// Accumulated loss at which the beam counts as lost.
pub const MAX_LOSSES: i64 = 100_000_000;

/// Whether a beam centred at `(x, y)` is outside the aperture.
pub open spec fn spec_hits_wall(x: i64, y: i64) -> bool {
    x > APERTURE || x < -APERTURE || y > APERTURE || y < -APERTURE
}

/// Whether a beam centred at `(x, y)` is outside the aperture.
#[verifier::when_used_as_spec(spec_hits_wall)]
pub fn hits_wall(x: i64, y: i64) -> (r: bool)
    ensures
        r == spec_hits_wall(x, y),
{
    x > APERTURE || x < -APERTURE || y > APERTURE || y < -APERTURE
}

/// The loss that one edge sheds: `num / den` of how far `edge` lies beyond the
/// loss zone, nothing if it lies within.
pub open spec fn edge_loss(edge: i64, num: i64, den: i64) -> i64 {
    if edge > LOSS_ZONE {
        scale(minus(edge, LOSS_ZONE), num, den)
    } else {
        0
    }
}

/// The loss shed in one plane by a beam centred at `pos` of full width
/// `size`: that of its upper edge plus that of its lower edge, mirrored.
pub open spec fn plane_loss(pos: i64, size: i64, num: i64, den: i64) -> i64 {
    let half = scale(size, 1, 2);
    plus(
        edge_loss(plus(pos, half), num, den),
        edge_loss(minus(half, pos), num, den),
    )
}

/// The loss shed in one step by a beam at `(x, y)` of sizes `(sx, sy)`.
pub open spec fn spec_step_loss(x: i64, sx: i64, y: i64, sy: i64, num: i64, den: i64) -> i64 {
    plus(plane_loss(x, sx, num, den), plane_loss(y, sy, num, den))
}

fn shed(edge: i64, num: i64, den: i64) -> (r: i64)
    requires
        0 < den,
    ensures
        r == edge_loss(edge, num, den),
        0 <= num ==> 0 <= r <= LIMIT,
{
    if edge > LOSS_ZONE {
        let beyond = minus(edge, LOSS_ZONE);
        assert(beyond >= 0);
        if num >= 0 {
            assert(beyond * num >= 0) by (nonlinear_arith)
                requires
                    beyond >= 0,
                    num >= 0,
            ;
            assert((beyond * num) / (den as int) >= 0) by (nonlinear_arith)
                requires
                    beyond * num >= 0,
                    den > 0,
            ;
        }
        scale(beyond, num, den)
    } else {
        0
    }
}

/// The loss shed in one step by a beam at `(x, y)` of sizes `(sx, sy)`, at
/// the rate `num / den` per unit of protrusion. Never negative.
#[verifier::when_used_as_spec(spec_step_loss)]
pub fn step_loss(x: i64, sx: i64, y: i64, sy: i64, num: i64, den: i64) -> (r: i64)
    requires
        0 < den,
    ensures
        r == spec_step_loss(x, sx, y, sy, num, den),
        0 <= num ==> 0 <= r <= LIMIT,
{
    let half_x = scale(sx, 1, 2);
    let half_y = scale(sy, 1, 2);
    let lx = plus(shed(plus(x, half_x), num, den), shed(minus(half_x, x), num, den));
    let ly = plus(shed(plus(y, half_y), num, den), shed(minus(half_y, y), num, den));
    plus(lx, ly)
}

/// The total after `shed` was added to `losses`. It saturates at `LIMIT`.
pub open spec fn spec_accumulate(losses: i64, shed: i64) -> i64 {
    if shed > 0 {
        plus(losses, shed)
    } else {
        losses
    }
}

/// Adds what was shed in one step to the total.
#[verifier::when_used_as_spec(spec_accumulate)]
pub fn accumulate(losses: i64, shed: i64) -> (r: i64)
    ensures
        r == spec_accumulate(losses, shed),
        0 <= losses <= LIMIT ==> losses <= r <= LIMIT,
{
    if shed > 0 {
        plus(losses, shed)
    } else {
        losses
    }
}

/// A beam that stays inside the loss zone with both edges sheds nothing.
pub proof fn lemma_no_loss_inside_zone(x: i64, sx: i64, y: i64, sy: i64, num: i64, den: i64)
    requires
        0 <= num,
        0 < den,
        in_range(x),
        in_range(y),
        0 <= sx <= LIMIT,
        0 <= sy <= LIMIT,
        -LOSS_ZONE <= x - sx / 2,
        x + sx / 2 <= LOSS_ZONE,
        -LOSS_ZONE <= y - sy / 2,
        y + sy / 2 <= LOSS_ZONE,
    ensures
        step_loss(x, sx, y, sy, num, den) == 0,
{
    assert(scale(sx, 1, 2) == sx / 2);
    assert(scale(sy, 1, 2) == sy / 2);
}

/// Accumulated losses never go down, whatever is shed.
pub proof fn lemma_losses_monotonic(losses: i64, shed: i64)
    requires
        0 <= losses <= LIMIT,
    ensures
        losses <= accumulate(losses, shed) <= LIMIT,
{
}

} // verus!
