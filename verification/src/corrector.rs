//! The corrector package of a cell: two trim dipoles, a trim quadrupole, a
//! skew quadrupole and two sextupoles, all in the long straight section.

use vstd::prelude::*;
use crate::fixed::plus;

verus! {

/// Which corrector of a package is meant.
#[derive(Clone, Copy, PartialEq, Eq, Structural, Debug)]
pub enum CorrectorSelect {
    HTrim,
    VTrim,
    TrimQuad,
    SkewQuad,
    SextA,
    SextB,
}

impl CorrectorSelect {
    pub open spec fn spec_label(&self) -> Seq<char> {
        match *self {
            CorrectorSelect::HTrim => "H-Trim"@,
            CorrectorSelect::VTrim => "V-Trim"@,
            CorrectorSelect::TrimQuad => "Tr-Quad"@,
            CorrectorSelect::SkewQuad => "Sk-Quad"@,
            CorrectorSelect::SextA => "Sext-A"@,
            CorrectorSelect::SextB => "Sext-B"@,
        }
    }

    pub open spec fn spec_next(&self) -> CorrectorSelect {
        match *self {
            CorrectorSelect::HTrim => CorrectorSelect::VTrim,
            CorrectorSelect::VTrim => CorrectorSelect::TrimQuad,
            CorrectorSelect::TrimQuad => CorrectorSelect::SkewQuad,
            CorrectorSelect::SkewQuad => CorrectorSelect::SextA,
            CorrectorSelect::SextA => CorrectorSelect::SextB,
            CorrectorSelect::SextB => CorrectorSelect::HTrim,
        }
    }

    pub open spec fn spec_prev(&self) -> CorrectorSelect {
        match *self {
            CorrectorSelect::HTrim => CorrectorSelect::SextB,
            CorrectorSelect::VTrim => CorrectorSelect::HTrim,
            CorrectorSelect::TrimQuad => CorrectorSelect::VTrim,
            CorrectorSelect::SkewQuad => CorrectorSelect::TrimQuad,
            CorrectorSelect::SextA => CorrectorSelect::SkewQuad,
            CorrectorSelect::SextB => CorrectorSelect::SextA,
        }
    }

    pub fn label(&self) -> (r: &'static str)
        ensures
            r@ == self.spec_label(),
    {
        match self {
            CorrectorSelect::HTrim => "H-Trim",
            CorrectorSelect::VTrim => "V-Trim",
            CorrectorSelect::TrimQuad => "Tr-Quad",
            CorrectorSelect::SkewQuad => "Sk-Quad",
            CorrectorSelect::SextA => "Sext-A",
            CorrectorSelect::SextB => "Sext-B",
        }
    }

    #[verifier::when_used_as_spec(spec_next)]
    pub fn next(&self) -> (r: CorrectorSelect)
        ensures
            r == self.spec_next(),
    {
        match self {
            CorrectorSelect::HTrim => CorrectorSelect::VTrim,
            CorrectorSelect::VTrim => CorrectorSelect::TrimQuad,
            CorrectorSelect::TrimQuad => CorrectorSelect::SkewQuad,
            CorrectorSelect::SkewQuad => CorrectorSelect::SextA,
            CorrectorSelect::SextA => CorrectorSelect::SextB,
            CorrectorSelect::SextB => CorrectorSelect::HTrim,
        }
    }

    #[verifier::when_used_as_spec(spec_prev)]
    pub fn prev(&self) -> (r: CorrectorSelect)
        ensures
            r == self.spec_prev(),
    {
        match self {
            CorrectorSelect::HTrim => CorrectorSelect::SextB,
            CorrectorSelect::VTrim => CorrectorSelect::HTrim,
            CorrectorSelect::TrimQuad => CorrectorSelect::VTrim,
            CorrectorSelect::SkewQuad => CorrectorSelect::TrimQuad,
            CorrectorSelect::SextA => CorrectorSelect::SkewQuad,
            CorrectorSelect::SextB => CorrectorSelect::SextA,
        }
    }
}

/// The settings of the correctors of one cell, in millionths.
#[derive(Clone, Copy, PartialEq, Eq, Structural, Debug)]
pub struct CorrectorPackage {
    /// Horizontal trim dipole: an angular kick.
    pub h_trim: i64,
    /// Vertical trim dipole: an angular kick.
    pub v_trim: i64,
    /// Trim quadrupole: a change of gradient.
    pub trim_quad: i64,
    /// Skew quadrupole: couples the planes.
    pub skew_quad: i64,
    /// Sextupole of family A.
    pub sext_a: i64,
    /// Sextupole of family B.
    pub sext_b: i64,
}

impl CorrectorPackage {
    /// The setting of one corrector.
    pub open spec fn spec_value(&self, which: CorrectorSelect) -> i64 {
        match which {
            CorrectorSelect::HTrim => self.h_trim,
            CorrectorSelect::VTrim => self.v_trim,
            CorrectorSelect::TrimQuad => self.trim_quad,
            CorrectorSelect::SkewQuad => self.skew_quad,
            CorrectorSelect::SextA => self.sext_a,
            CorrectorSelect::SextB => self.sext_b,
        }
    }

    /// This package with one corrector set to `value`.
    pub open spec fn spec_with(&self, which: CorrectorSelect, value: i64) -> CorrectorPackage {
        match which {
            CorrectorSelect::HTrim => CorrectorPackage { h_trim: value, ..*self },
            CorrectorSelect::VTrim => CorrectorPackage { v_trim: value, ..*self },
            CorrectorSelect::TrimQuad => CorrectorPackage { trim_quad: value, ..*self },
            CorrectorSelect::SkewQuad => CorrectorPackage { skew_quad: value, ..*self },
            CorrectorSelect::SextA => CorrectorPackage { sext_a: value, ..*self },
            CorrectorSelect::SextB => CorrectorPackage { sext_b: value, ..*self },
        }
    }

    /// This package with one corrector moved by `delta`.
    pub open spec fn spec_adjusted(&self, which: CorrectorSelect, delta: i64) -> CorrectorPackage {
        self.spec_with(which, plus(self.spec_value(which), delta))
    }

    /// This package with each trim dipole moved by its own amount.
    pub open spec fn spec_kicked(&self, h_delta: i64, v_delta: i64) -> CorrectorPackage {
        CorrectorPackage {
            h_trim: plus(self.h_trim, h_delta),
            v_trim: plus(self.v_trim, v_delta),
            ..*self
        }
    }

    /// A package with every corrector off.
    pub fn new() -> (r: CorrectorPackage)
        ensures
            r == (CorrectorPackage {
                h_trim: 0,
                v_trim: 0,
                trim_quad: 0,
                skew_quad: 0,
                sext_a: 0,
                sext_b: 0,
            }),
    {
        CorrectorPackage { h_trim: 0, v_trim: 0, trim_quad: 0, skew_quad: 0, sext_a: 0, sext_b: 0 }
    }

    /// The setting of one corrector.
    #[verifier::when_used_as_spec(spec_value)]
    pub fn value(&self, which: CorrectorSelect) -> (r: i64)
        ensures
            r == self.spec_value(which),
    {
        match which {
            CorrectorSelect::HTrim => self.h_trim,
            CorrectorSelect::VTrim => self.v_trim,
            CorrectorSelect::TrimQuad => self.trim_quad,
            CorrectorSelect::SkewQuad => self.skew_quad,
            CorrectorSelect::SextA => self.sext_a,
            CorrectorSelect::SextB => self.sext_b,
        }
    }

    /// This package with one corrector set to `value`.
    #[verifier::when_used_as_spec(spec_with)]
    pub fn with(&self, which: CorrectorSelect, value: i64) -> (r: CorrectorPackage)
        ensures
            r == self.spec_with(which, value),
            r.spec_value(which) == value,
    {
        let mut r = *self;
        match which {
            CorrectorSelect::HTrim => r.h_trim = value,
            CorrectorSelect::VTrim => r.v_trim = value,
            CorrectorSelect::TrimQuad => r.trim_quad = value,
            CorrectorSelect::SkewQuad => r.skew_quad = value,
            CorrectorSelect::SextA => r.sext_a = value,
            CorrectorSelect::SextB => r.sext_b = value,
        }
        r
    }

    /// This package with one corrector moved by `delta`, saturating.
    #[verifier::when_used_as_spec(spec_adjusted)]
    pub fn adjusted(&self, which: CorrectorSelect, delta: i64) -> (r: CorrectorPackage)
        ensures
            r == self.spec_adjusted(which, delta),
    {
        self.with(which, plus(self.value(which), delta))
    }

    /// This package with each trim dipole moved by its own amount.
    #[verifier::when_used_as_spec(spec_kicked)]
    pub fn kicked(&self, h_delta: i64, v_delta: i64) -> (r: CorrectorPackage)
        ensures
            r == self.spec_kicked(h_delta, v_delta),
    {
        CorrectorPackage {
            h_trim: plus(self.h_trim, h_delta),
            v_trim: plus(self.v_trim, v_delta),
            trim_quad: self.trim_quad,
            skew_quad: self.skew_quad,
            sext_a: self.sext_a,
            sext_b: self.sext_b,
        }
    }
}

/// Setting a corrector touches no other corrector of the package, and
/// setting it twice leaves the second value.
pub proof fn lemma_with_is_local(
    package: CorrectorPackage,
    which: CorrectorSelect,
    other: CorrectorSelect,
    value: i64,
    again: i64,
)
    ensures
        package.with(which, value).value(which) == value,
        other != which ==> package.with(which, value).value(other) == package.value(other),
        package.with(which, value).with(which, again) == package.with(which, again),
{
}

/// Going to the next corrector and back, or back and on, changes nothing;
/// six steps in one direction come round to the start.
pub proof fn lemma_selection_cycles(which: CorrectorSelect)
    ensures
        which.next().prev() == which,
        which.prev().next() == which,
        which.next().next().next().next().next().next() == which,
{
}

} // verus!
