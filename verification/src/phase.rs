//! The phases of an acceleration cycle.
//!
//! While the beam is being accelerated the phase follows from how far the
//! beam's Lorentz factor is from its value at transition, and near the end
//! of the cycle from how many turns are left. Losing the beam and
//! extracting it end the cycle.

use vstd::prelude::*;

verus! {

/// Number of turns in one acceleration cycle.
pub const TURNS_IN_CYCLE: u32 = 15000;

/// Number of turns before the end of the cycle from which on the beam,
/// once past transition, counts as ready for extraction.
pub const EXTRACTION_WINDOW: u32 = 500;

/// Ratio of the Lorentz factor to its transition value, in millionths, below
/// which the beam is in the early ramp.
pub const PRE_TRANSITION_RATIO: i64 = 850_000;

/// Ratio from which on the beam is at transition.
pub const TRANSITION_RATIO: i64 = 970_000;

/// Ratio from which on the beam is past transition.
pub const POST_TRANSITION_RATIO: i64 = 1_030_000;

/// Where in its cycle the machine is.
#[derive(Clone, Copy, PartialEq, Eq, Structural, Debug)]
pub enum GamePhase {
    /// No beam yet; the player sets up the correctors.
    Setup,
    /// The beam has just been injected.
    Injection,
    /// Well below transition.
    EarlyRamp,
    /// Approaching transition.
    PreTransition,
    /// At transition.
    Transition,
    /// Past transition.
    PostTransition,
    /// The beam has reached the end of the cycle.
    Extraction,
    /// The beam is lost.
    Lost,
}

impl GamePhase {
    pub open spec fn spec_label(&self) -> Seq<char> {
        match *self {
            GamePhase::Setup => "SETUP"@,
            GamePhase::Injection => "INJECT"@,
            GamePhase::EarlyRamp => "RAMP"@,
            GamePhase::PreTransition => "PRE-Xt"@,
            GamePhase::Transition => "TRANSITION"@,
            GamePhase::PostTransition => "POST-Xt"@,
            GamePhase::Extraction => "EXTRACTED!"@,
            GamePhase::Lost => "LOST"@,
        }
    }

    /// Whether the cycle has ended: the beam is extracted or lost.
    pub open spec fn spec_is_terminal(&self) -> bool {
        *self == GamePhase::Extraction || *self == GamePhase::Lost
    }

    /// How far into the cycle the phase is, the terminal phases last.
    pub open spec fn rank(&self) -> int {
        match *self {
            GamePhase::Setup => 0,
            GamePhase::Injection => 1,
            GamePhase::EarlyRamp => 2,
            GamePhase::PreTransition => 3,
            GamePhase::Transition => 4,
            GamePhase::PostTransition => 5,
            GamePhase::Extraction => 6,
            GamePhase::Lost => 7,
        }
    }

    pub fn label(&self) -> (r: &'static str)
        ensures
            r@ == self.spec_label(),
    {
        match self {
            GamePhase::Setup => "SETUP",
            GamePhase::Injection => "INJECT",
            GamePhase::EarlyRamp => "RAMP",
            GamePhase::PreTransition => "PRE-Xt",
            GamePhase::Transition => "TRANSITION",
            GamePhase::PostTransition => "POST-Xt",
            GamePhase::Extraction => "EXTRACTED!",
            GamePhase::Lost => "LOST",
        }
    }

    /// Whether the cycle has ended: the beam is extracted or lost.
    #[verifier::when_used_as_spec(spec_is_terminal)]
    pub fn is_terminal(&self) -> (r: bool)
        ensures
            r == self.spec_is_terminal(),
    {
        match self {
            GamePhase::Extraction | GamePhase::Lost => true,
            _ => false,
        }
    }
}

/// The phase of a beam that is being accelerated, from the ratio of its
/// Lorentz factor to the transition value (in millionths) and the turn it is
/// in.
pub open spec fn spec_ramp_phase(gamma_ratio: i64, ramp_turn: u32) -> GamePhase {
    if gamma_ratio < PRE_TRANSITION_RATIO {
        GamePhase::EarlyRamp
    } else if gamma_ratio < TRANSITION_RATIO {
        GamePhase::PreTransition
    } else if gamma_ratio < POST_TRANSITION_RATIO {
        GamePhase::Transition
    } else if ramp_turn < TURNS_IN_CYCLE - EXTRACTION_WINDOW {
        GamePhase::PostTransition
    } else {
        GamePhase::Extraction
    }
}

/// The phase of a beam that is being accelerated.
#[verifier::when_used_as_spec(spec_ramp_phase)]
pub fn ramp_phase(gamma_ratio: i64, ramp_turn: u32) -> (r: GamePhase)
    ensures
        r == spec_ramp_phase(gamma_ratio, ramp_turn),
{
    if gamma_ratio < PRE_TRANSITION_RATIO {
        GamePhase::EarlyRamp
    } else if gamma_ratio < TRANSITION_RATIO {
        GamePhase::PreTransition
    } else if gamma_ratio < POST_TRANSITION_RATIO {
        GamePhase::Transition
    } else if ramp_turn < TURNS_IN_CYCLE - EXTRACTION_WINDOW {
        GamePhase::PostTransition
    } else {
        GamePhase::Extraction
    }
}

/// The phase never runs backward while energy and turn count go up: a
/// beam that is further in energy and in turns is at least as far in phase.
pub proof fn lemma_ramp_phase_monotonic(ratio_a: i64, turn_a: u32, ratio_b: i64, turn_b: u32)
    requires
        ratio_a <= ratio_b,
        turn_a <= turn_b,
    ensures
        ramp_phase(ratio_a, turn_a).rank() <= ramp_phase(ratio_b, turn_b).rank(),
{
}

/// While the beam is being accelerated it is never in a phase that belongs
/// to the time before injection, and never lost.
pub proof fn lemma_ramp_phase_range(gamma_ratio: i64, ramp_turn: u32)
    ensures
        GamePhase::EarlyRamp.rank() <= ramp_phase(gamma_ratio, ramp_turn).rank()
            <= GamePhase::Extraction.rank(),
        ramp_phase(gamma_ratio, ramp_turn) == GamePhase::Extraction <==> gamma_ratio
            >= POST_TRANSITION_RATIO && ramp_turn >= TURNS_IN_CYCLE - EXTRACTION_WINDOW,
{
}

} // verus!
