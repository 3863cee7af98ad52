//! Bounded histories: the most recent samples of a signal, oldest first.

use vstd::prelude::*;

verus! {

/// `history` with `sample` appended, and then without its oldest sample if it
/// has grown past `capacity`.
pub open spec fn recorded<T>(history: Seq<T>, sample: T, capacity: int) -> Seq<T> {
    let grown = history.push(sample);
    if grown.len() > capacity {
        grown.subrange(1, grown.len() as int)
    } else {
        grown
    }
}

/// Appends `sample` to `history` and drops the oldest sample if the history
/// has grown past `capacity`.
pub fn record<T>(history: &mut Vec<T>, sample: T, capacity: usize)
    ensures
        final(history)@ == recorded(old(history)@, sample, capacity as int),
        old(history)@.len() <= capacity ==> final(history)@.len() <= capacity,
        final(history)@.len() > 0 ==> final(history)@.last() == sample,
{
    history.push(sample);
    if history.len() > capacity {
        let _ = history.remove(0);
    }
}

/// A history that is within its capacity stays within it, and keeps its
/// samples in order: all but possibly the oldest are still there, followed by
/// the new one.
pub proof fn lemma_recorded_keeps_order<T>(history: Seq<T>, sample: T, capacity: int)
    requires
        history.len() <= capacity,
    ensures
        recorded(history, sample, capacity).len() <= capacity,
        history.len() < capacity ==> recorded(history, sample, capacity) == history.push(sample),
        history.len() == capacity && capacity > 0 ==> recorded(history, sample, capacity)
            == history.subrange(1, capacity).push(sample),
{
    if history.len() == capacity && capacity > 0 {
        assert(recorded(history, sample, capacity) =~= history.subrange(1, capacity).push(sample));
    }
}

} // verus!
