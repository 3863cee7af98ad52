//! The static structure of the ring: identical cells of six elements each.

use vstd::prelude::*;

verus! {

/// Number of identical cells around the ring.
pub const NUM_SECTIONS: usize = 24;

/// Number of elements in one cell.
pub const ELEMENTS_PER_CELL: usize = 6;

/// Number of elements around the whole ring.
pub const TOTAL_ELEMENTS: usize = 144;

/// Length of a combined-function magnet, in micrometres.
pub const MAGNET_LENGTH: i64 = 2_889_000;

/// Length of the short straight section, in micrometres.
pub const SHORT_DRIFT: i64 = 1_200_000;

/// Length of the long straight section, in micrometres.
pub const LONG_DRIFT: i64 = 6_000_000;

/// Position within a cell at which the corrector package sits.
pub const CORRECTOR_SLOT: usize = 4;

/// The kinds of element in a combined-function cell.
#[derive(Clone, Copy, PartialEq, Eq, Structural, Debug)]
pub enum ElementType {
    /// Bends, and focuses horizontally.
    FMagnet,
    /// Bends, and focuses vertically.
    DMagnet,
    /// The short straight section.
    ShortDrift,
    /// The long straight section, which houses the correctors.
    LongDrift,
}

impl ElementType {
    /// The short name shown for this kind of element.
    pub open spec fn spec_label(&self) -> Seq<char> {
        match *self {
            ElementType::FMagnet => "F"@,
            ElementType::DMagnet => "D"@,
            ElementType::ShortDrift => "Os"@,
            ElementType::LongDrift => "OL"@,
        }
    }

    /// The length of this kind of element, in micrometres.
    pub open spec fn spec_length(&self) -> i64 {
        match *self {
            ElementType::FMagnet | ElementType::DMagnet => MAGNET_LENGTH,
            ElementType::ShortDrift => SHORT_DRIFT,
            ElementType::LongDrift => LONG_DRIFT,
        }
    }

    /// Whether this kind of element bends and focuses the beam.
    pub open spec fn spec_is_magnet(&self) -> bool {
        *self == ElementType::FMagnet || *self == ElementType::DMagnet
    }

    pub fn label(&self) -> (r: &'static str)
        ensures
            r@ == self.spec_label(),
    {
        match self {
            ElementType::FMagnet => "F",
            ElementType::DMagnet => "D",
            ElementType::ShortDrift => "Os",
            ElementType::LongDrift => "OL",
        }
    }

    #[verifier::when_used_as_spec(spec_length)]
    pub fn length(&self) -> (r: i64)
        ensures
            r == self.spec_length(),
    {
        match self {
            ElementType::FMagnet | ElementType::DMagnet => MAGNET_LENGTH,
            ElementType::ShortDrift => SHORT_DRIFT,
            ElementType::LongDrift => LONG_DRIFT,
        }
    }

    #[verifier::when_used_as_spec(spec_is_magnet)]
    pub fn is_magnet(&self) -> (r: bool)
        ensures
            r == self.spec_is_magnet(),
    {
        match self {
            ElementType::FMagnet | ElementType::DMagnet => true,
            _ => false,
        }
    }
}

/// The kind of element at position `index` of every cell: F, short drift, F,
/// D, long drift, D.
pub open spec fn spec_cell_element(index: int) -> ElementType {
    if index == 0 || index == 2 {
        ElementType::FMagnet
    } else if index == 1 {
        ElementType::ShortDrift
    } else if index == 4 {
        ElementType::LongDrift
    } else {
        ElementType::DMagnet
    }
}

/// The kind of element at position `index` of every cell.
#[verifier::when_used_as_spec(spec_cell_element_usize)]
pub fn cell_element(index: usize) -> (r: ElementType)
    ensures
        r == spec_cell_element(index as int),
{
    if index == 0 || index == 2 {
        ElementType::FMagnet
    } else if index == 1 {
        ElementType::ShortDrift
    } else if index == 4 {
        ElementType::LongDrift
    } else {
        ElementType::DMagnet
    }
}

/// `spec_cell_element` on a machine index.
pub open spec fn spec_cell_element_usize(index: usize) -> ElementType {
    spec_cell_element(index as int)
}

/// One element of the ring. Never changed once the lattice is built.
#[derive(Clone, Copy, PartialEq, Eq, Structural, Debug)]
pub struct LatticeElement {
    pub elem_type: ElementType,
    /// The cell this element belongs to, from 0.
    pub cell: usize,
    /// The position of this element within its cell, from 0.
    pub index: usize,
}

/// The element that stands at place `i` of the ring.
pub open spec fn ring_element(i: int) -> LatticeElement {
    LatticeElement {
        elem_type: spec_cell_element(i % 6),
        cell: (i / 6) as usize,
        index: (i % 6) as usize,
    }
}

/// Whether `lattice` is the ring: `TOTAL_ELEMENTS` elements, cell by cell.
pub open spec fn is_ring(lattice: Seq<LatticeElement>) -> bool {
    &&& lattice.len() == TOTAL_ELEMENTS
    &&& forall|i: int| 0 <= i < TOTAL_ELEMENTS ==> lattice[i] == ring_element(i)
}

/// Builds the ring, cell by cell.
pub fn build_lattice() -> (lattice: Vec<LatticeElement>)
    ensures
        is_ring(lattice@),
{
    let mut lattice: Vec<LatticeElement> = Vec::new();
    let mut cell: usize = 0;
    while cell < NUM_SECTIONS
        invariant
            cell <= NUM_SECTIONS,
            lattice@.len() == cell * 6,
            forall|i: int| 0 <= i < lattice@.len() ==> lattice@[i] == ring_element(i),
        decreases NUM_SECTIONS - cell,
    {
        let mut index: usize = 0;
        while index < ELEMENTS_PER_CELL
            invariant
                cell < NUM_SECTIONS,
                index <= ELEMENTS_PER_CELL,
                lattice@.len() == cell * 6 + index,
                forall|i: int| 0 <= i < lattice@.len() ==> lattice@[i] == ring_element(i),
            decreases ELEMENTS_PER_CELL - index,
        {
            lattice.push(LatticeElement { elem_type: cell_element(index), cell, index });
            index += 1;
        }
        cell += 1;
    }
    lattice
}

/// The kinds of magnet in a separated-function section, in beam order.
#[derive(Clone, Copy, PartialEq, Eq, Structural, Debug)]
pub enum MagnetType {
    /// Focuses horizontally, defocuses vertically.
    FocusQuad,
    /// First bending magnet of the section.
    Dipole1,
    /// Defocuses horizontally, focuses vertically.
    DefocusQuad,
    /// Second bending magnet of the section.
    Dipole2,
    /// Vertical trim dipole.
    VTrim,
    /// Horizontal trim dipole.
    HTrim,
}

impl MagnetType {
    /// The short name shown for this kind of magnet.
    pub open spec fn spec_label(&self) -> Seq<char> {
        match *self {
            MagnetType::FocusQuad => "QF"@,
            MagnetType::Dipole1 => "D1"@,
            MagnetType::DefocusQuad => "QD"@,
            MagnetType::Dipole2 => "D2"@,
            MagnetType::VTrim => "VT"@,
            MagnetType::HTrim => "HT"@,
        }
    }

    pub fn label(&self) -> (r: &'static str)
        ensures
            r@ == self.spec_label(),
    {
        match self {
            MagnetType::FocusQuad => "QF",
            MagnetType::Dipole1 => "D1",
            MagnetType::DefocusQuad => "QD",
            MagnetType::Dipole2 => "D2",
            MagnetType::VTrim => "VT",
            MagnetType::HTrim => "HT",
        }
    }
}

/// Position of the vertical trim within a section.
pub const VTRIM_SLOT: usize = 4;

/// Position of the horizontal trim within a section.
pub const HTRIM_SLOT: usize = 5;

/// The kind of magnet at position `index` of every section.
pub open spec fn spec_section_magnet(index: int) -> MagnetType {
    if index == 0 {
        MagnetType::FocusQuad
    } else if index == 1 {
        MagnetType::Dipole1
    } else if index == 2 {
        MagnetType::DefocusQuad
    } else if index == 3 {
        MagnetType::Dipole2
    } else if index == 4 {
        MagnetType::VTrim
    } else {
        MagnetType::HTrim
    }
}

/// The kind of magnet at position `index` of every section.
pub fn section_magnet(index: usize) -> (r: MagnetType)
    ensures
        r == spec_section_magnet(index as int),
{
    if index == 0 {
        MagnetType::FocusQuad
    } else if index == 1 {
        MagnetType::Dipole1
    } else if index == 2 {
        MagnetType::DefocusQuad
    } else if index == 3 {
        MagnetType::Dipole2
    } else if index == 4 {
        MagnetType::VTrim
    } else {
        MagnetType::HTrim
    }
}

/// One magnet with the value its power supply is set to.
#[derive(Clone, Copy, PartialEq, Eq, Structural, Debug)]
pub struct Magnet {
    pub mag_type: MagnetType,
    /// The supply value in millionths.
    pub power: i64,
    /// The section this magnet belongs to, from 0.
    pub section: usize,
}

/// Whether `magnets` has one magnet of the right kind and section at every
/// place of the ring. Says nothing of their power.
pub open spec fn is_magnet_ring(magnets: Seq<Magnet>) -> bool {
    &&& magnets.len() == TOTAL_ELEMENTS
    &&& forall|i: int|
        0 <= i < TOTAL_ELEMENTS ==> (#[trigger] magnets[i]).mag_type == spec_section_magnet(i % 6)
            && magnets[i].section == i / 6
}

/// Builds the magnets of the ring, section by section, all switched off.
pub fn build_magnets() -> (magnets: Vec<Magnet>)
    ensures
        is_magnet_ring(magnets@),
        forall|i: int| 0 <= i < TOTAL_ELEMENTS ==> (#[trigger] magnets@[i]).power == 0,
{
    let mut magnets: Vec<Magnet> = Vec::new();
    let mut section: usize = 0;
    while section < NUM_SECTIONS
        invariant
            section <= NUM_SECTIONS,
            magnets@.len() == section * 6,
            forall|i: int|
                0 <= i < magnets@.len() ==> (#[trigger] magnets@[i]).mag_type
                    == spec_section_magnet(i % 6) && magnets@[i].section == i / 6
                    && magnets@[i].power == 0,
        decreases NUM_SECTIONS - section,
    {
        let mut index: usize = 0;
        while index < ELEMENTS_PER_CELL
            invariant
                section < NUM_SECTIONS,
                index <= ELEMENTS_PER_CELL,
                magnets@.len() == section * 6 + index,
                forall|i: int|
                    0 <= i < magnets@.len() ==> (#[trigger] magnets@[i]).mag_type
                        == spec_section_magnet(i % 6) && magnets@[i].section == i / 6
                        && magnets@[i].power == 0,
            decreases ELEMENTS_PER_CELL - index,
        {
            magnets.push(Magnet { mag_type: section_magnet(index), power: 0, section });
            index += 1;
        }
        section += 1;
    }
    magnets
}

} // verus!
