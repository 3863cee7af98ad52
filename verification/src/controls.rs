//! The player's settings: difficulty, simulation speed, what is displayed,
//! and the step by which a supply is adjusted.

use vstd::prelude::*;
use crate::fixed::{at_least, at_most, plus, scale, ONE};

verus! {

/// How unforgiving the machine is.
#[derive(Clone, Copy, PartialEq, Eq, Structural, Debug)]
pub enum Difficulty {
    Easy,
    Hard,
}

impl Difficulty {
    pub open spec fn spec_label(&self) -> Seq<char> {
        match *self {
            Difficulty::Easy => "Easy"@,
            Difficulty::Hard => "Hard"@,
        }
    }

    pub open spec fn spec_toggle(&self) -> Difficulty {
        match *self {
            Difficulty::Easy => Difficulty::Hard,
            Difficulty::Hard => Difficulty::Easy,
        }
    }

    /// By how much the beam grows at every element, in millionths.
    pub open spec fn spec_size_growth_rate(&self) -> i64 {
        match *self {
            Difficulty::Easy => 0,
            Difficulty::Hard => 50_000,
        }
    }

    pub fn label(&self) -> (r: &'static str)
        ensures
            r@ == self.spec_label(),
    {
        match self {
            Difficulty::Easy => "Easy",
            Difficulty::Hard => "Hard",
        }
    }

    /// The other difficulty.
    #[verifier::when_used_as_spec(spec_toggle)]
    pub fn toggle(&self) -> (r: Difficulty)
        ensures
            r == self.spec_toggle(),
    {
        match self {
            Difficulty::Easy => Difficulty::Hard,
            Difficulty::Hard => Difficulty::Easy,
        }
    }

    /// By how much the beam grows at every element.
    #[verifier::when_used_as_spec(spec_size_growth_rate)]
    pub fn size_growth_rate(&self) -> (r: i64)
        ensures
            r == self.spec_size_growth_rate(),
    {
        match self {
            Difficulty::Easy => 0,
            Difficulty::Hard => 50_000,
        }
    }
}

/// How many sub-steps the simulation takes per tick of the host. This only
/// paces the display; a sub-step does the same whatever the speed.
#[derive(Clone, Copy, PartialEq, Eq, Structural, Debug)]
pub enum SimSpeed {
    Slow,
    Normal,
    Fast,
}

impl SimSpeed {
    pub open spec fn spec_steps_per_tick(&self) -> u32 {
        match *self {
            SimSpeed::Slow => 4,
            SimSpeed::Normal => 14,
            SimSpeed::Fast => 144,
        }
    }

    pub open spec fn spec_label(&self) -> Seq<char> {
        match *self {
            SimSpeed::Slow => ">"@,
            SimSpeed::Normal => ">>"@,
            SimSpeed::Fast => ">>>"@,
        }
    }

    pub open spec fn spec_next(&self) -> SimSpeed {
        match *self {
            SimSpeed::Slow => SimSpeed::Normal,
            SimSpeed::Normal => SimSpeed::Fast,
            SimSpeed::Fast => SimSpeed::Slow,
        }
    }

    #[verifier::when_used_as_spec(spec_steps_per_tick)]
    pub fn steps_per_tick(&self) -> (r: u32)
        ensures
            r == self.spec_steps_per_tick(),
    {
        match self {
            SimSpeed::Slow => 4,
            SimSpeed::Normal => 14,
            SimSpeed::Fast => 144,
        }
    }

    pub fn label(&self) -> (r: &'static str)
        ensures
            r@ == self.spec_label(),
    {
        match self {
            SimSpeed::Slow => ">",
            SimSpeed::Normal => ">>",
            SimSpeed::Fast => ">>>",
        }
    }

    /// The next faster speed; from the fastest back to the slowest.
    #[verifier::when_used_as_spec(spec_next)]
    pub fn next(&self) -> (r: SimSpeed)
        ensures
            r == self.spec_next(),
    {
        match self {
            SimSpeed::Slow => SimSpeed::Normal,
            SimSpeed::Normal => SimSpeed::Fast,
            SimSpeed::Fast => SimSpeed::Slow,
        }
    }
}

/// Which plot the display shows.
#[derive(Clone, Copy, PartialEq, Eq, Structural, Debug)]
pub enum DisplayMode {
    Orbit,
    PhaseSpaceX,
    PhaseSpaceY,
    Longitudinal,
    TuneDiagram,
}

impl DisplayMode {
    pub open spec fn spec_label(&self) -> Seq<char> {
        match *self {
            DisplayMode::Orbit => "Orbit"@,
            DisplayMode::PhaseSpaceX => "X-X'"@,
            DisplayMode::PhaseSpaceY => "Y-Y'"@,
            DisplayMode::Longitudinal => "Longit."@,
            DisplayMode::TuneDiagram => "Tune"@,
        }
    }

    pub open spec fn spec_next(&self) -> DisplayMode {
        match *self {
            DisplayMode::Orbit => DisplayMode::PhaseSpaceX,
            DisplayMode::PhaseSpaceX => DisplayMode::PhaseSpaceY,
            DisplayMode::PhaseSpaceY => DisplayMode::Longitudinal,
            DisplayMode::Longitudinal => DisplayMode::TuneDiagram,
            DisplayMode::TuneDiagram => DisplayMode::Orbit,
        }
    }

    pub open spec fn spec_prev(&self) -> DisplayMode {
        match *self {
            DisplayMode::Orbit => DisplayMode::TuneDiagram,
            DisplayMode::PhaseSpaceX => DisplayMode::Orbit,
            DisplayMode::PhaseSpaceY => DisplayMode::PhaseSpaceX,
            DisplayMode::Longitudinal => DisplayMode::PhaseSpaceY,
            DisplayMode::TuneDiagram => DisplayMode::Longitudinal,
        }
    }

    pub fn label(&self) -> (r: &'static str)
        ensures
            r@ == self.spec_label(),
    {
        match self {
            DisplayMode::Orbit => "Orbit",
            DisplayMode::PhaseSpaceX => "X-X'",
            DisplayMode::PhaseSpaceY => "Y-Y'",
            DisplayMode::Longitudinal => "Longit.",
            DisplayMode::TuneDiagram => "Tune",
        }
    }

    #[verifier::when_used_as_spec(spec_next)]
    pub fn next(&self) -> (r: DisplayMode)
        ensures
            r == self.spec_next(),
    {
        match self {
            DisplayMode::Orbit => DisplayMode::PhaseSpaceX,
            DisplayMode::PhaseSpaceX => DisplayMode::PhaseSpaceY,
            DisplayMode::PhaseSpaceY => DisplayMode::Longitudinal,
            DisplayMode::Longitudinal => DisplayMode::TuneDiagram,
            DisplayMode::TuneDiagram => DisplayMode::Orbit,
        }
    }

    #[verifier::when_used_as_spec(spec_prev)]
    pub fn prev(&self) -> (r: DisplayMode)
        ensures
            r == self.spec_prev(),
    {
        match self {
            DisplayMode::Orbit => DisplayMode::TuneDiagram,
            DisplayMode::PhaseSpaceX => DisplayMode::Orbit,
            DisplayMode::PhaseSpaceY => DisplayMode::PhaseSpaceX,
            DisplayMode::Longitudinal => DisplayMode::PhaseSpaceY,
            DisplayMode::TuneDiagram => DisplayMode::Longitudinal,
        }
    }
}

/// Which coordinate the player is typing in before an injection at chosen
/// coordinates.
#[derive(Clone, Copy, PartialEq, Eq, Structural, Debug)]
pub enum InputMode {
    Idle,
    InjectX,
    InjectY,
}

/// The largest adjustment step, in millionths.
pub const MAX_ADJUST_SPEED: i64 = ONE;

/// The adjustment step after it was doubled, capped at `MAX_ADJUST_SPEED`.
pub open spec fn spec_coarser(speed: i64) -> i64 {
    at_most(plus(speed, speed), MAX_ADJUST_SPEED)
}

/// Doubles the adjustment step, up to `MAX_ADJUST_SPEED`.
#[verifier::when_used_as_spec(spec_coarser)]
pub fn coarser(speed: i64) -> (r: i64)
    ensures
        r == spec_coarser(speed),
        0 < speed ==> 0 < r <= MAX_ADJUST_SPEED,
{
    at_most(plus(speed, speed), MAX_ADJUST_SPEED)
}

/// The adjustment step after it was halved, rounding toward zero, and not
/// below `floor`.
pub open spec fn spec_finer(speed: i64, floor: i64) -> i64 {
    at_least(scale(speed, 1, 2), floor)
}

/// Halves the adjustment step, down to `floor`.
#[verifier::when_used_as_spec(spec_finer)]
pub fn finer(speed: i64, floor: i64) -> (r: i64)
    ensures
        r == spec_finer(speed, floor),
        floor <= r,
        0 < floor <= speed <= MAX_ADJUST_SPEED ==> r <= speed,
{
    at_least(scale(speed, 1, 2), floor)
}

} // verus!
