//! How steady the beam has been: a score from the recorded positions and
//! sizes, measured against the aperture.

use vstd::prelude::*;
use crate::fixed::{
    at_least, div_toward_zero, magnitude, minus, plus, saturate, scale, LIMIT, ONE,
};
use crate::loss::APERTURE;

verus! {

/// The longest history that a score is taken of.
pub const MAX_SAMPLES: usize = 60;

/// The sum of the samples of `s` from place `from` on, each taken by its
/// magnitude if `absolute` is set.
pub open spec fn tail_sum(s: Seq<i64>, absolute: bool, from: int) -> int
    decreases s.len() - from,
{
    if from < 0 || from >= s.len() {
        0
    } else {
        (if absolute {
            magnitude(s[from]) as int
        } else {
            s[from] as int
        }) + tail_sum(s, absolute, from + 1)
    }
}

/// The mean of the samples of `s`, each taken by its magnitude if `absolute`
/// is set, rounded toward zero and saturated; 0 for an empty history.
pub open spec fn spec_mean(s: Seq<i64>, absolute: bool) -> i64 {
    if s.len() == 0 {
        0
    } else {
        saturate(div_toward_zero(tail_sum(s, absolute, 0), s.len() as int)) as i64
    }
}

/// The share of the aperture that a mean excursion of `mean` leaves free, as
/// a fraction of `ONE`, and not below zero.
pub open spec fn spec_headroom(mean: i64) -> i64 {
    at_least(minus(ONE, scale(mean, ONE, APERTURE)), 0)
}

/// The score of one plane: six tenths for position, four tenths for size.
pub open spec fn spec_plane_score(mean_pos: i64, mean_size: i64) -> i64 {
    plus(scale(spec_headroom(mean_pos), 6, 10), scale(spec_headroom(mean_size), 4, 10))
}

proof fn lemma_tail_sum_bounds(s: Seq<i64>, absolute: bool, from: int)
    requires
        0 <= from <= s.len(),
    ensures
        -(s.len() - from) * 0x8000_0000_0000_0000 <= tail_sum(s, absolute, from) <= (s.len()
            - from) * 0x8000_0000_0000_0000,
    decreases s.len() - from,
{
    if from < s.len() {
        lemma_tail_sum_bounds(s, absolute, from + 1);
    }
}

fn mean(s: &Vec<i64>, absolute: bool) -> (r: i64)
    requires
        s@.len() <= MAX_SAMPLES,
    ensures
        r == spec_mean(s@, absolute),
{
    if s.len() == 0 {
        return 0;
    }
    let mut sum: i128 = 0;
    let mut i: usize = s.len();
    while i > 0
        invariant
            i <= s@.len(),
            s@.len() <= MAX_SAMPLES,
            sum == tail_sum(s@, absolute, i as int),
            -(s@.len() - i) * 0x8000_0000_0000_0000 <= sum <= (s@.len() - i)
                * 0x8000_0000_0000_0000,
        decreases i,
    {
        i -= 1;
        proof {
            lemma_tail_sum_bounds(s@, absolute, i as int);
        }
        let v = if absolute {
            magnitude(s[i])
        } else {
            s[i]
        };
        sum = sum + v as i128;
    }
    let q = sum / (s.len() as i128);
    if q < -(LIMIT as i128) {
        -LIMIT
    } else if q > LIMIT as i128 {
        LIMIT
    } else {
        q as i64
    }
}

fn headroom(mean: i64) -> (r: i64)
    ensures
        r == spec_headroom(mean),
{
    at_least(minus(ONE, scale(mean, ONE, APERTURE)), 0)
}

/// How steady the beam has been, from 0 to a hundred times `ONE`: in each
/// plane six tenths for staying near the axis and four tenths for staying
/// small, both measured against the aperture as a mean over the history; the
/// planes count equally. Zero while no position is recorded.
pub open spec fn spec_stability(
    pos: Seq<i64>,
    size: Seq<i64>,
    y_pos: Seq<i64>,
    y_size: Seq<i64>,
) -> i64 {
    if pos.len() == 0 {
        0
    } else {
        scale(
            plus(
                spec_plane_score(spec_mean(pos, true), spec_mean(size, false)),
                spec_plane_score(spec_mean(y_pos, true), spec_mean(y_size, false)),
            ),
            100,
            2,
        )
    }
}

/// How steady the beam has been, from 0 to a hundred times `ONE`.
pub fn stability(pos: &Vec<i64>, size: &Vec<i64>, y_pos: &Vec<i64>, y_size: &Vec<i64>) -> (r: i64)
    requires
        pos@.len() <= MAX_SAMPLES,
        size@.len() <= MAX_SAMPLES,
        y_pos@.len() <= MAX_SAMPLES,
        y_size@.len() <= MAX_SAMPLES,
    ensures
        r == spec_stability(pos@, size@, y_pos@, y_size@),
{
    if pos.len() == 0 {
        return 0;
    }
    let x_score = plus(
        scale(headroom(mean(pos, true)), 6, 10),
        scale(headroom(mean(size, false)), 4, 10),
    );
    let y_score = plus(
        scale(headroom(mean(y_pos, true)), 6, 10),
        scale(headroom(mean(y_size, false)), 4, 10),
    );
    scale(plus(x_score, y_score), 100, 2)
}

} // verus!
