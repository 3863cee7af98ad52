//! What the simulation has to tell the player, and for how long it stays on
//! screen. The display turns a notice into words and colour.

use vstd::prelude::*;
use crate::bump::{BumpAxis, BumpConfig};
use crate::controls::{Difficulty, SimSpeed};

verus! {

/// Something worth flashing on the status line.
#[derive(Clone, Copy, PartialEq, Eq, Structural, Debug)]
pub enum Notice {
    /// The beam centre left the aperture.
    HitWall,
    /// The accumulated losses reached the limit.
    LossesExceeded,
    /// The beam left the RF bucket.
    LeftBucket,
    /// The beam was on the blocked side of a restriction.
    HitRestriction { section: usize, axis: BumpAxis, positive_blocked: bool },
    /// The settings of one section were copied to all others.
    CopiedSection { section: usize },
    /// A bump mode was selected.
    BumpSelected { bump: BumpConfig },
    /// The bump was moved to another start cell.
    BumpMoved { bump: BumpConfig },
    /// Bump mode was switched off.
    BumpOff,
    /// The trims of the bump were set to zero, as far as the ramp allows.
    ZeroedBumpTrims { ramp: usize },
    /// The trims of the bump were set to zero.
    ZeroedTrims,
    /// A ramp checkpoint was selected for editing.
    RampSelected { ramp: usize },
    /// The difficulty was changed.
    DifficultySet { difficulty: Difficulty },
    /// The beam was injected on the design orbit.
    Injected,
    /// The beam was injected at coordinates the player typed in.
    InjectedAt { x: i64, y: i64 },
    /// The typing of injection coordinates was abandoned.
    InjectCancelled,
    /// What the player typed for one coordinate was no number.
    InvalidCoordinate { axis: BumpAxis },
    /// The beam has passed transition; `quality` says how far the
    /// chromaticities were from their targets.
    TransitionCrossed { quality: i64 },
    /// The RF voltage was changed.
    RfVoltage { megavolts: i64 },
    /// The RF phase was flipped.
    RfPhase { degrees: i64 },
    /// The quadrupole bus trim was changed.
    QuadBus { trim: i64 },
    /// The bend bus trim was changed.
    BendBus { trim: i64 },
    /// The correctors of one cell were copied to all others.
    CopiedCorrectors { cell: usize },
    /// The simulation speed was changed.
    SpeedSet { speed: SimSpeed },
}

impl Notice {
    /// For how many ticks the notice is shown.
    pub open spec fn spec_duration(&self) -> u32 {
        match *self {
            Notice::HitWall => 60,
            Notice::LossesExceeded => 60,
            Notice::LeftBucket => 60,
            Notice::HitRestriction { .. } => 60,
            Notice::CopiedSection { .. } => 45,
            Notice::BumpSelected { .. } => 45,
            Notice::BumpMoved { .. } => 30,
            Notice::BumpOff => 30,
            Notice::ZeroedBumpTrims { .. } => 30,
            Notice::ZeroedTrims => 30,
            Notice::RampSelected { .. } => 30,
            Notice::DifficultySet { .. } => 45,
            Notice::Injected => 60,
            Notice::InjectedAt { .. } => 60,
            Notice::InjectCancelled => 30,
            Notice::InvalidCoordinate { .. } => 45,
            Notice::TransitionCrossed { .. } => 90,
            Notice::RfVoltage { .. } => 30,
            Notice::RfPhase { .. } => 30,
            Notice::QuadBus { .. } => 30,
            Notice::BendBus { .. } => 30,
            Notice::CopiedCorrectors { .. } => 45,
            Notice::SpeedSet { .. } => 30,
        }
    }

    /// For how many ticks the notice is shown.
    #[verifier::when_used_as_spec(spec_duration)]
    pub fn duration(&self) -> (r: u32)
        ensures
            r == self.spec_duration(),
    {
        match self {
            Notice::HitWall => 60,
            Notice::LossesExceeded => 60,
            Notice::LeftBucket => 60,
            Notice::HitRestriction { .. } => 60,
            Notice::CopiedSection { .. } => 45,
            Notice::BumpSelected { .. } => 45,
            Notice::BumpMoved { .. } => 30,
            Notice::BumpOff => 30,
            Notice::ZeroedBumpTrims { .. } => 30,
            Notice::ZeroedTrims => 30,
            Notice::RampSelected { .. } => 30,
            Notice::DifficultySet { .. } => 45,
            Notice::Injected => 60,
            Notice::InjectedAt { .. } => 60,
            Notice::InjectCancelled => 30,
            Notice::InvalidCoordinate { .. } => 45,
            Notice::TransitionCrossed { .. } => 90,
            Notice::RfVoltage { .. } => 30,
            Notice::RfPhase { .. } => 30,
            Notice::QuadBus { .. } => 30,
            Notice::BendBus { .. } => 30,
            Notice::CopiedCorrectors { .. } => 45,
            Notice::SpeedSet { .. } => 30,
        }
    }
}

/// A notice on screen and the ticks it has left.
#[derive(Clone, Copy, PartialEq, Eq, Structural, Debug)]
pub struct Flash {
    pub notice: Notice,
    pub ticks: u32,
}

/// The flash that shows `notice` for its full duration.
pub open spec fn spec_flash(notice: Notice) -> Option<Flash> {
    Some(Flash { notice, ticks: notice.spec_duration() })
}

/// The flash that shows `notice` for its full duration.
#[verifier::when_used_as_spec(spec_flash)]
pub fn flash(notice: Notice) -> (r: Option<Flash>)
    ensures
        r == spec_flash(notice),
{
    Some(Flash { notice, ticks: notice.duration() })
}

/// What is on screen one tick later: a flash with ticks left loses one, a
/// flash without any goes away.
pub open spec fn spec_faded(message: Option<Flash>) -> Option<Flash> {
    match message {
        Some(f) => if f.ticks > 0 {
            Some(Flash { notice: f.notice, ticks: (f.ticks - 1) as u32 })
        } else {
            None
        },
        None => None,
    }
}

/// What is on screen one tick later.
#[verifier::when_used_as_spec(spec_faded)]
pub fn faded(message: Option<Flash>) -> (r: Option<Flash>)
    ensures
        r == spec_faded(message),
{
    match message {
        Some(f) => if f.ticks > 0 {
            Some(Flash { notice: f.notice, ticks: f.ticks - 1 })
        } else {
            None
        },
        None => None,
    }
}

} // verus!
