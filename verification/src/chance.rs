//! The one source of chance: where the obstacles stand and where the beam is
//! injected are drawn when a game is set up, and never again.

use vstd::prelude::*;
use rand::Rng;
use crate::lattice::NUM_SECTIONS;

verus! {

/// Draws an integer from `lo..hi` with `rand::Rng::gen_range` on the
/// generator that `rand::thread_rng` hands out.
///
/// Not proved: that the outcome lies in the range asked for, `lo` included
/// and `hi` excluded. Nothing is claimed of which value comes out.
#[verifier::external_body]
pub(crate) fn random_between(lo: i64, hi: i64) -> (r: i64)
    requires
        lo < hi,
    ensures
        lo <= r < hi,
{
    rand::thread_rng().gen_range(lo..hi)
}

/// Whether every element of `s` is smaller than the next.
pub open spec fn strictly_increasing(s: Seq<usize>) -> bool {
    forall|i: int, j: int| 0 <= i < j < s.len() ==> s[i] < s[j]
}

/// The sections of the ring, in order.
pub open spec fn all_sections() -> Seq<usize> {
    Seq::new(NUM_SECTIONS as nat, |i: int| i as usize)
}

/// The sections chosen by four draws, where each draw counts through the
/// sections that no earlier draw has taken.
pub open spec fn spec_pick_sections(draws: [usize; 4]) -> Seq<usize> {
    let c0 = all_sections();
    let c1 = c0.remove(draws@[0] as int);
    let c2 = c1.remove(draws@[1] as int);
    let c3 = c2.remove(draws@[2] as int);
    seq![c0[draws@[0] as int], c1[draws@[1] as int], c2[draws@[2] as int], c3[draws@[3] as int]]
}

/// Whether no element of `s` is one of `taken`.
pub open spec fn avoids(s: Seq<usize>, taken: Seq<usize>) -> bool {
    forall|i: int, k: int| 0 <= i < s.len() && 0 <= k < taken.len() ==> s[i] != taken[k]
}

fn take(candidates: &mut Vec<usize>, index: usize, Ghost(taken): Ghost<Seq<usize>>) -> (section: usize)
    requires
        index < old(candidates)@.len(),
        strictly_increasing(old(candidates)@),
        avoids(old(candidates)@, taken),
        forall|i: int| 0 <= i < old(candidates)@.len() ==> old(candidates)@[i] < NUM_SECTIONS,
    ensures
        section == old(candidates)@[index as int],
        section < NUM_SECTIONS,
        final(candidates)@ == old(candidates)@.remove(index as int),
        strictly_increasing(final(candidates)@),
        avoids(final(candidates)@, taken.push(section)),
        forall|k: int| 0 <= k < taken.len() ==> section != taken[k],
        forall|i: int| 0 <= i < final(candidates)@.len() ==> final(candidates)@[i] < NUM_SECTIONS,
{
    let ghost before = candidates@;
    let section = candidates.remove(index);
    proof {
        assert forall|i: int| 0 <= i < candidates@.len() implies candidates@[i] == before[if i
            < index {
            i
        } else {
            i + 1
        }] by {}
    }
    section
}

/// Turns four draws into four different sections: draw `k` counts through
/// the sections that the draws before it have left.
#[verifier::rlimit(50)]
pub fn pick_sections(draws: [usize; 4]) -> (sections: [usize; 4])
    requires
        draws@[0] < NUM_SECTIONS,
        draws@[1] < NUM_SECTIONS - 1,
        draws@[2] < NUM_SECTIONS - 2,
        draws@[3] < NUM_SECTIONS - 3,
    ensures
        sections@ == spec_pick_sections(draws),
        forall|i: int| 0 <= i < 4 ==> sections@[i] < NUM_SECTIONS,
        forall|i: int, j: int| 0 <= i < j < 4 ==> sections@[i] != sections@[j],
{
    let mut candidates: Vec<usize> = Vec::new();
    let mut n: usize = 0;
    while n < NUM_SECTIONS
        invariant
            n <= NUM_SECTIONS,
            candidates@.len() == n,
            forall|i: int| 0 <= i < n ==> candidates@[i] == i,
        decreases NUM_SECTIONS - n,
    {
        candidates.push(n);
        n += 1;
    }
    assert(candidates@ =~= all_sections());
    let ghost none = Seq::<usize>::empty();
    let s0 = take(&mut candidates, draws[0], Ghost(none));
    let s1 = take(&mut candidates, draws[1], Ghost(none.push(s0)));
    let s2 = take(&mut candidates, draws[2], Ghost(none.push(s0).push(s1)));
    let s3 = take(&mut candidates, draws[3], Ghost(none.push(s0).push(s1).push(s2)));
    proof {
        let taken = none.push(s0).push(s1).push(s2);
        assert(taken[0] == s0 && taken[1] == s1 && taken[2] == s2);
        assert(none.push(s0).push(s1)[0] == s0 && none.push(s0).push(s1)[1] == s1);
        assert(none.push(s0)[0] == s0);
    }
    let sections = [s0, s1, s2, s3];
    assert(sections@ =~= spec_pick_sections(draws));
    sections
}

} // verus!
