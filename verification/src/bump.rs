//! Closed-orbit bumps: a pattern of trim kicks over consecutive cells whose
//! coefficients cancel, so that the orbit is displaced inside the span and
//! left alone outside it.

use vstd::prelude::*;
use crate::lattice::{ELEMENTS_PER_CELL, HTRIM_SLOT, NUM_SECTIONS, VTRIM_SLOT};

verus! {

/// The plane in which a bump or a restriction acts.
#[derive(Clone, Copy, PartialEq, Eq, Structural, Debug)]
pub enum BumpAxis {
    X,
    Y,
}

impl BumpAxis {
    pub open spec fn spec_label(&self) -> Seq<char> {
        match *self {
            BumpAxis::X => "X"@,
            BumpAxis::Y => "Y"@,
        }
    }

    pub open spec fn spec_toggle(&self) -> BumpAxis {
        match *self {
            BumpAxis::X => BumpAxis::Y,
            BumpAxis::Y => BumpAxis::X,
        }
    }

    pub fn label(&self) -> (r: &'static str)
        ensures
            r@ == self.spec_label(),
    {
        match self {
            BumpAxis::X => "X",
            BumpAxis::Y => "Y",
        }
    }

    /// The other plane.
    #[verifier::when_used_as_spec(spec_toggle)]
    pub fn toggle(&self) -> (r: BumpAxis)
        ensures
            r == self.spec_toggle(),
    {
        match self {
            BumpAxis::X => BumpAxis::Y,
            BumpAxis::Y => BumpAxis::X,
        }
    }
}

/// The coefficients of a bump over `size` cells; empty for a size that is not
/// 3, 4 or 5.
pub open spec fn bump_pattern(size: int) -> Seq<i64> {
    if size == 3 {
        seq![1i64, -2i64, 1i64]
    } else if size == 4 {
        seq![1i64, -1i64, -1i64, 1i64]
    } else if size == 5 {
        seq![1i64, -2i64, 2i64, -2i64, 1i64]
    } else {
        Seq::empty()
    }
}

/// The sum of a sequence of coefficients.
pub open spec fn total(s: Seq<i64>) -> int
    decreases s.len(),
{
    if s.len() == 0 {
        0
    } else {
        total(s.drop_last()) + s.last()
    }
}

/// The cell that lies `offset` cells after `start`, going round the ring.
pub open spec fn wrapped_cell(start: int, offset: int) -> int {
    (start + offset) % (NUM_SECTIONS as int)
}

/// Which cells a bump spans and in which plane it is being adjusted.
#[derive(Clone, Copy, PartialEq, Eq, Structural, Debug)]
pub struct BumpConfig {
    /// Number of consecutive cells: 3, 4 or 5.
    pub size: usize,
    /// The first cell of the span.
    pub start_section: usize,
    pub axis: BumpAxis,
}

impl BumpConfig {
    /// A bump of one of the three sizes that starts on the ring.
    pub open spec fn wf(&self) -> bool {
        &&& 3 <= self.size <= 5
        &&& self.start_section < NUM_SECTIONS
    }

    /// The coefficients of this bump, in cell order.
    pub open spec fn pattern(&self) -> Seq<i64> {
        bump_pattern(self.size as int)
    }

    /// The cell on which coefficient `i` acts.
    pub open spec fn cell_of(&self, i: int) -> int {
        wrapped_cell(self.start_section as int, i)
    }

    /// Whether `sec` is one of the `size` cells from `start_section` on.
    pub open spec fn spans(&self, sec: int) -> bool {
        exists|i: int| 0 <= i < self.size && self.cell_of(i) == sec
    }

    /// How many cells after `start_section` the cell `sec` lies, going round
    /// the ring.
    pub open spec fn offset_of(&self, sec: int) -> int {
        (sec - self.start_section) % (NUM_SECTIONS as int)
    }

    /// The coefficient that acts on cell `sec`: the one whose place in the
    /// pattern is the offset of `sec` from the start of the span.
    pub open spec fn coefficient_at(&self, sec: int) -> Option<i64> {
        if 0 <= sec < NUM_SECTIONS && self.offset_of(sec) < self.pattern().len() {
            Some(self.pattern()[self.offset_of(sec)])
        } else {
            None
        }
    }

    /// The magnet of `section` that a bump in this plane drives.
    pub open spec fn spec_trim_index_in_section(&self, section: usize) -> usize {
        match self.axis {
            BumpAxis::X => (section * ELEMENTS_PER_CELL + HTRIM_SLOT) as usize,
            BumpAxis::Y => (section * ELEMENTS_PER_CELL + VTRIM_SLOT) as usize,
        }
    }

    /// A bump of `size` cells from `start_section` on, adjusted horizontally.
    pub fn new(size: usize, start_section: usize) -> (r: BumpConfig)
        ensures
            r == (BumpConfig { size, start_section, axis: BumpAxis::X }),
    {
        BumpConfig { size, start_section, axis: BumpAxis::X }
    }

    /// The sign pattern of the bump. It sums to zero, so the kicks cancel.
    pub fn coefficients(&self) -> (r: Vec<i64>)
        ensures
            r@ == self.pattern(),
            total(r@) == 0,
            self.wf() ==> r@.len() == self.size,
    {
        proof {
            lemma_pattern_sums_to_zero(self.size as int);
        }
        if self.size == 3 {
            let r = vec![1i64, -2i64, 1i64];
            assert(r@ =~= self.pattern());
            r
        } else if self.size == 4 {
            let r = vec![1i64, -1i64, -1i64, 1i64];
            assert(r@ =~= self.pattern());
            r
        } else if self.size == 5 {
            let r = vec![1i64, -2i64, 2i64, -2i64, 1i64];
            assert(r@ =~= self.pattern());
            r
        } else {
            let r: Vec<i64> = Vec::new();
            assert(r@ =~= self.pattern());
            r
        }
    }

    /// The cell and the coefficient of every kick of the bump, in order. The
    /// span wraps round the ring.
    pub fn section_coefficients(&self) -> (r: Vec<(usize, i64)>)
        ensures
            r@.len() == self.pattern().len(),
            forall|i: int|
                0 <= i < r@.len() ==> (#[trigger] r@[i]).0 == self.cell_of(i) && r@[i].1
                    == self.pattern()[i],
    {
        let coeffs = self.coefficients();
        let base: usize = self.start_section % NUM_SECTIONS;
        let mut out: Vec<(usize, i64)> = Vec::new();
        let mut i: usize = 0;
        while i < coeffs.len()
            invariant
                i <= coeffs@.len(),
                coeffs@ == self.pattern(),
                coeffs@.len() <= 5,
                base == self.start_section % NUM_SECTIONS,
                out@.len() == i,
                forall|j: int|
                    0 <= j < i ==> (#[trigger] out@[j]).0 == self.cell_of(j) && out@[j].1
                        == self.pattern()[j],
            decreases coeffs@.len() - i,
        {
            out.push(((base + i) % NUM_SECTIONS, coeffs[i]));
            i += 1;
        }
        out
    }

    /// The index, in ring order, of the trim magnet of `section` that this
    /// bump drives.
    #[verifier::when_used_as_spec(spec_trim_index_in_section)]
    pub fn trim_index_in_section(&self, section: usize) -> (r: usize)
        requires
            section < NUM_SECTIONS,
        ensures
            r == self.spec_trim_index_in_section(section),
    {
        match self.axis {
            BumpAxis::X => section * ELEMENTS_PER_CELL + HTRIM_SLOT,
            BumpAxis::Y => section * ELEMENTS_PER_CELL + VTRIM_SLOT,
        }
    }

    /// Whether `sec` lies in the span of the bump.
    pub fn contains_section(&self, sec: usize) -> (r: bool)
        ensures
            r == self.spans(sec as int),
    {
        let base: usize = self.start_section % NUM_SECTIONS;
        let mut i: usize = 0;
        while i < self.size
            invariant
                i <= self.size,
                base == self.start_section % NUM_SECTIONS,
                forall|j: int| 0 <= j < i ==> self.cell_of(j) != sec,
            decreases self.size - i,
        {
            if (base + i % NUM_SECTIONS) % NUM_SECTIONS == sec {
                assert(self.cell_of(i as int) == sec);
                return true;
            }
            i += 1;
        }
        false
    }

    /// The coefficient that acts on `sec`, if `sec` lies in the span.
    pub fn coeff_for_section(&self, sec: usize) -> (r: Option<i64>)
        ensures
            r == self.coefficient_at(sec as int),
    {
        let coeffs = self.coefficients();
        let base: usize = self.start_section % NUM_SECTIONS;
        let mut i: usize = 0;
        while i < coeffs.len()
            invariant
                i <= coeffs@.len(),
                coeffs@ == self.pattern(),
                coeffs@.len() <= 5,
                base == self.start_section % NUM_SECTIONS,
                forall|j: int| 0 <= j < i ==> self.cell_of(j) != sec,
            decreases coeffs@.len() - i,
        {
            if (base + i) % NUM_SECTIONS == sec {
                assert(self.offset_of(sec as int) == i);
                return Some(coeffs[i]);
            }
            i += 1;
        }
        proof {
            let k = self.offset_of(sec as int);
            if 0 <= sec < NUM_SECTIONS && k < coeffs@.len() {
                assert(self.cell_of(k) == sec);
            }
        }
        None
    }

    /// The same bump, one cell further round the ring.
    pub open spec fn spec_shifted_forward(&self) -> BumpConfig {
        BumpConfig { start_section: wrapped_cell(self.start_section as int, 1) as usize, ..*self }
    }

    /// The same bump, one cell back; from cell 0 it goes to the last cell.
    pub open spec fn spec_shifted_back(&self) -> BumpConfig {
        BumpConfig {
            start_section: if self.start_section == 0 {
                (NUM_SECTIONS - 1) as usize
            } else {
                (self.start_section - 1) as usize
            },
            ..*self
        }
    }

    /// The same bump, one cell further round the ring.
    #[verifier::when_used_as_spec(spec_shifted_forward)]
    pub fn shifted_forward(&self) -> (r: BumpConfig)
        ensures
            r == self.spec_shifted_forward(),
            r.start_section < NUM_SECTIONS,
    {
        BumpConfig {
            size: self.size,
            start_section: (self.start_section % NUM_SECTIONS + 1) % NUM_SECTIONS,
            axis: self.axis,
        }
    }

    /// The same bump, one cell back; from cell 0 it goes to the last cell.
    #[verifier::when_used_as_spec(spec_shifted_back)]
    pub fn shifted_back(&self) -> (r: BumpConfig)
        ensures
            r == self.spec_shifted_back(),
            self.start_section < NUM_SECTIONS ==> r.start_section < NUM_SECTIONS,
    {
        BumpConfig {
            size: self.size,
            start_section: if self.start_section == 0 {
                NUM_SECTIONS - 1
            } else {
                self.start_section - 1
            },
            axis: self.axis,
        }
    }
}

/// The bump mode that follows `current` when the player cycles through the
/// modes: off, 3 cells, 4 cells, 5 cells, off. A new bump starts at
/// `fallback_start`; a resized one keeps its start and goes back to the
/// horizontal plane.
pub open spec fn spec_next_bump_mode(current: Option<BumpConfig>, fallback_start: usize) -> Option<
    BumpConfig,
> {
    match current {
        None => Some(BumpConfig { size: 3, start_section: fallback_start, axis: BumpAxis::X }),
        Some(b) => if b.size == 3 {
            Some(BumpConfig { size: 4, start_section: b.start_section, axis: BumpAxis::X })
        } else if b.size == 4 {
            Some(BumpConfig { size: 5, start_section: b.start_section, axis: BumpAxis::X })
        } else {
            None
        },
    }
}

/// The bump mode that follows `current` in the cycle off, 3, 4, 5, off.
pub fn next_bump_mode(current: Option<BumpConfig>, fallback_start: usize) -> (r: Option<BumpConfig>)
    ensures
        r == spec_next_bump_mode(current, fallback_start),
{
    match current {
        None => Some(BumpConfig::new(3, fallback_start)),
        Some(b) => if b.size == 3 {
            Some(BumpConfig::new(4, b.start_section))
        } else if b.size == 4 {
            Some(BumpConfig::new(5, b.start_section))
        } else {
            None
        },
    }
}

/// What an edit of the trims of a bump asks for.
#[derive(Clone, Copy, PartialEq, Eq, Structural, Debug)]
pub enum TrimEdit {
    /// Up by the adjustment step times the coefficient.
    Raise,
    /// Down by the adjustment step times the coefficient.
    Lower,
    /// To zero.
    Zero,
}

/// The coefficients of every bump cancel: they sum to zero.
pub proof fn lemma_pattern_sums_to_zero(size: int)
    ensures
        total(bump_pattern(size)) == 0,
{
    let p = bump_pattern(size);
    reveal_with_fuel(total, 6);
    if size == 3 {
        assert(p.drop_last() =~= seq![1i64, -2i64]);
        assert(p.drop_last().drop_last() =~= seq![1i64]);
        assert(p.drop_last().drop_last().drop_last() =~= Seq::<i64>::empty());
    } else if size == 4 {
        assert(p.drop_last() =~= seq![1i64, -1i64, -1i64]);
        assert(p.drop_last().drop_last() =~= seq![1i64, -1i64]);
        assert(p.drop_last().drop_last().drop_last() =~= seq![1i64]);
        assert(p.drop_last().drop_last().drop_last().drop_last() =~= Seq::<i64>::empty());
    } else if size == 5 {
        assert(p.drop_last() =~= seq![1i64, -2i64, 2i64, -2i64]);
        assert(p.drop_last().drop_last() =~= seq![1i64, -2i64, 2i64]);
        assert(p.drop_last().drop_last().drop_last() =~= seq![1i64, -2i64]);
        assert(p.drop_last().drop_last().drop_last().drop_last() =~= seq![1i64]);
        assert(p.drop_last().drop_last().drop_last().drop_last().drop_last() =~= Seq::<
            i64,
        >::empty());
    }
}

/// A well-formed bump touches as many distinct cells as it has coefficients:
/// two different coefficients never act on the same cell.
pub proof fn lemma_bump_cells_distinct(bump: BumpConfig, i: int, j: int)
    requires
        bump.wf(),
        0 <= i < bump.size,
        0 <= j < bump.size,
        i != j,
    ensures
        bump.cell_of(i) != bump.cell_of(j),
        0 <= bump.cell_of(i) < NUM_SECTIONS,
{
}

/// A cell lies in the span of a well-formed bump exactly if a coefficient
/// acts on it, and that is so exactly if the cell is on the ring and fewer
/// than `size` cells after the start.
pub proof fn lemma_span_has_coefficient(bump: BumpConfig, sec: int)
    requires
        bump.wf(),
    ensures
        bump.spans(sec) <==> bump.coefficient_at(sec) is Some,
        bump.spans(sec) <==> 0 <= sec < NUM_SECTIONS && bump.offset_of(sec) < bump.size,
{
    if bump.spans(sec) {
        let i = choose|i: int| 0 <= i < bump.size && bump.cell_of(i) == sec;
        assert(bump.offset_of(sec) == i);
    }
    if 0 <= sec < NUM_SECTIONS && bump.offset_of(sec) < bump.size {
        assert(bump.cell_of(bump.offset_of(sec)) == sec);
    }
}

} // verus!
