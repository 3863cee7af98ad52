//! Ramp tables: the setpoints of one power supply at ten turn checkpoints.
//!
//! A supply cannot slew faster than `MAX_RAMP_DELTA` between neighbouring
//! checkpoints. An edit that asks for more is not refused: the value is
//! clamped into the window that the neighbours leave open.

use vstd::prelude::*;
use crate::fixed::{clamp, clamp_between, in_range, plus, LIMIT};

verus! {

/// Number of checkpoints of a ramp.
pub const NUM_RAMPS: usize = 10;

/// The most by which neighbouring setpoints may differ, in millionths.
pub const MAX_RAMP_DELTA: i64 = 500_000;

/// The checkpoint in force at `turn`: the turn itself up to the last
/// checkpoint, which then stays in force.
pub open spec fn spec_checkpoint(turn: u32) -> usize {
    if turn < NUM_RAMPS - 1 {
        turn as usize
    } else {
        (NUM_RAMPS - 1) as usize
    }
}

/// The checkpoint in force at `turn`.
#[verifier::when_used_as_spec(spec_checkpoint)]
pub fn checkpoint(turn: u32) -> (r: usize)
    ensures
        r == spec_checkpoint(turn),
        r < NUM_RAMPS,
{
    if turn < (NUM_RAMPS - 1) as u32 {
        turn as usize
    } else {
        NUM_RAMPS - 1
    }
}

/// Whether two neighbouring setpoints respect the slew limit.
pub open spec fn within_slew(a: i64, b: i64) -> bool {
    -MAX_RAMP_DELTA <= a - b <= MAX_RAMP_DELTA
}

/// `value` clamped to within `MAX_RAMP_DELTA` of `neighbour`.
pub open spec fn near(value: i64, neighbour: i64) -> i64 {
    clamp_between(value as int, neighbour - MAX_RAMP_DELTA, neighbour + MAX_RAMP_DELTA) as i64
}

/// The setpoints of one supply.
#[derive(Clone, Copy, Debug)]
pub struct Ramp {
    pub points: [i64; 10],
}

impl Ramp {
    /// Every setpoint is in range and neighbours respect the slew limit.
    pub open spec fn wf(&self) -> bool {
        &&& forall|i: int| 0 <= i < NUM_RAMPS ==> in_range(#[trigger] self.points@[i])
        &&& forall|i: int|
            0 <= i < NUM_RAMPS - 1 ==> within_slew(#[trigger] self.points@[i], self.points@[i + 1])
    }

    /// The value that an edit of checkpoint `idx` to `value` stores: `value`
    /// clamped to the checkpoint before, where there is one, and then to the
    /// checkpoint after, where there is one.
    pub open spec fn spec_clamp_value(&self, idx: usize, value: i64) -> i64 {
        let after_prev = if 0 < idx < NUM_RAMPS {
            near(value, self.points@[idx - 1])
        } else {
            value
        };
        if idx < NUM_RAMPS - 1 {
            near(after_prev, self.points@[idx + 1])
        } else {
            after_prev
        }
    }

    /// The setpoint in force at `turn`. Not interpolated.
    pub open spec fn spec_power_for_turn(&self, turn: u32) -> i64 {
        self.points@[spec_checkpoint(turn) as int]
    }

    /// The table after checkpoint `idx` was edited to `value`; unchanged for
    /// a checkpoint that does not exist.
    pub open spec fn edited(&self, idx: usize, value: i64) -> Seq<i64> {
        if idx < NUM_RAMPS {
            self.points@.update(
                idx as int,
                self.spec_clamp_value(idx, clamp_between(value as int, -LIMIT, LIMIT as int) as i64),
            )
        } else {
            self.points@
        }
    }

    /// A ramp that holds `value` at every checkpoint, brought into range.
    pub fn flat(value: i64) -> (r: Ramp)
        ensures
            r.wf(),
            forall|i: int|
                0 <= i < NUM_RAMPS ==> #[trigger] r.points@[i] == clamp_between(
                    value as int,
                    -LIMIT,
                    LIMIT as int,
                ),
    {
        let v = clamp(value, -LIMIT, LIMIT);
        Ramp { points: [v, v, v, v, v, v, v, v, v, v] }
    }

    /// The setpoint in force at `turn`.
    #[verifier::when_used_as_spec(spec_power_for_turn)]
    pub fn power_for_turn(&self, turn: u32) -> (r: i64)
        ensures
            r == self.spec_power_for_turn(turn),
    {
        self.points[checkpoint(turn)]
    }

    /// The value nearest to `value` that checkpoint `idx` can take without
    /// breaking the slew limit against its neighbours. A checkpoint that does
    /// not exist has no neighbours, and `value` comes back unchanged.
    #[verifier::when_used_as_spec(spec_clamp_value)]
    pub fn clamp_value(&self, idx: usize, value: i64) -> (r: i64)
        requires
            self.wf(),
        ensures
            r == self.spec_clamp_value(idx, value),
            0 < idx < NUM_RAMPS ==> within_slew(r, self.points@[idx - 1]),
            idx < NUM_RAMPS - 1 ==> within_slew(r, self.points@[idx + 1]),
            in_range(value) ==> in_range(r),
    {
        let mut v = value;
        if 0 < idx && idx < NUM_RAMPS {
            let prev = self.points[idx - 1];
            assert(in_range(self.points@[idx - 1]));
            v = clamp(v, prev - MAX_RAMP_DELTA, prev + MAX_RAMP_DELTA);
        }
        if idx < NUM_RAMPS - 1 {
            let next = self.points[idx + 1];
            assert(in_range(self.points@[idx + 1]));
            assert(within_slew(self.points@[idx as int], self.points@[idx + 1]));
            if idx > 0 {
                assert(within_slew(self.points@[idx - 1], self.points@[idx as int]));
            }
            v = clamp(v, next - MAX_RAMP_DELTA, next + MAX_RAMP_DELTA);
        }
        v
    }

    /// Edits checkpoint `idx` to `value`, clamped into range and then into
    /// the window that the neighbours leave, and returns what was stored. An
    /// edit of a checkpoint that does not exist changes nothing and returns
    /// `value`.
    pub fn set_clamped(&mut self, idx: usize, value: i64) -> (stored: i64)
        requires
            old(self).wf(),
        ensures
            final(self).wf(),
            final(self).points@ == old(self).edited(idx, value),
            idx < NUM_RAMPS ==> stored == final(self).points@[idx as int],
            idx >= NUM_RAMPS ==> stored == value,
            0 < idx < NUM_RAMPS ==> within_slew(
                final(self).points@[idx as int],
                final(self).points@[idx - 1],
            ),
            idx < NUM_RAMPS - 1 ==> within_slew(
                final(self).points@[idx as int],
                final(self).points@[idx + 1],
            ),
    {
        if idx >= NUM_RAMPS {
            return value;
        }
        let stored = self.clamp_value(idx, clamp(value, -LIMIT, LIMIT));
        let ghost before = self.points@;
        self.points[idx] = stored;
        assert(self.points@ =~= before.update(idx as int, stored));
        assert forall|i: int| 0 <= i < NUM_RAMPS - 1 implies within_slew(
            #[trigger] self.points@[i],
            self.points@[i + 1],
        ) by {
            assert(within_slew(before[i], before[i + 1]));
        }
        assert forall|i: int| 0 <= i < NUM_RAMPS implies in_range(#[trigger] self.points@[i]) by {
            assert(in_range(before[i]));
        }
        stored
    }

    /// Moves checkpoint `idx` by `delta`, as far as range and slew limit
    /// allow, and returns what was stored.
    pub fn adjust(&mut self, idx: usize, delta: i64) -> (stored: i64)
        requires
            old(self).wf(),
            idx < NUM_RAMPS,
        ensures
            final(self).wf(),
            final(self).points@ == old(self).edited(idx, plus(old(self).points@[idx as int], delta)),
            stored == final(self).points@[idx as int],
            0 < idx ==> within_slew(final(self).points@[idx as int], final(self).points@[idx - 1]),
            idx < NUM_RAMPS - 1 ==> within_slew(
                final(self).points@[idx as int],
                final(self).points@[idx + 1],
            ),
    {
        let target = plus(self.points[idx], delta);
        self.set_clamped(idx, target)
    }
}

/// An edit changes only the checkpoint it names, and by no more than was
/// asked: the stored value lies between the old setpoint and the requested
/// one.
#[verifier::rlimit(50)]
pub proof fn lemma_edit_is_local(ramp: Ramp, idx: usize, value: i64)
    requires
        ramp.wf(),
        idx < NUM_RAMPS,
        in_range(value),
    ensures
        forall|i: int| 0 <= i < NUM_RAMPS && i != idx ==> ramp.edited(idx, value)[i] == ramp.points@[i],
        ramp.points@[idx as int] <= value ==> ramp.points@[idx as int] <= ramp.edited(
            idx,
            value,
        )[idx as int] <= value,
        value <= ramp.points@[idx as int] ==> value <= ramp.edited(idx, value)[idx as int]
            <= ramp.points@[idx as int],
{
    assert(in_range(ramp.points@[idx as int]));
    if idx > 0 {
        assert(within_slew(ramp.points@[idx - 1], ramp.points@[idx as int]));
        assert(in_range(ramp.points@[idx - 1]));
    }
    if idx < NUM_RAMPS - 1 {
        assert(within_slew(ramp.points@[idx as int], ramp.points@[idx + 1]));
        assert(in_range(ramp.points@[idx + 1]));
    }
}

/// An edit to a value that already respects the slew limit against both
/// neighbours is stored as asked.
pub proof fn lemma_feasible_edit_is_exact(ramp: Ramp, idx: usize, value: i64)
    requires
        ramp.wf(),
        idx < NUM_RAMPS,
        in_range(value),
        0 < idx ==> within_slew(value, ramp.points@[idx - 1]),
        idx < NUM_RAMPS - 1 ==> within_slew(value, ramp.points@[idx + 1]),
    ensures
        ramp.edited(idx, value)[idx as int] == value,
{
}

} // verus!
