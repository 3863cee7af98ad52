//! The machine room of a terminal arcade: two particle-accelerator tuning
//! games, the shell of tabs around them, and the table of high scores.
//!
//! The player of either game tunes magnets so that a bunch of protons stays
//! in the ring. In the storage ring (`beam`, `beam_play`) the supplies follow
//! ramp tables with a slew limit and the beam is tracked here, element by
//! element; what follows for its orbit is proved in `orbit`. In the booster
//! (`booster`, `booster_play`) the beam is taken from injection through
//! transition to extraction; the host evaluates the sines and cosines that
//! the transfer matrices, the ramp and the RF need, and all the rest (the
//! form of each matrix, the motion of the bunch, the optics, losses, phases,
//! transition, extraction, the score) is computed and decided here.
//!
//! Quantities are fixed-point integers (`fixed`): millionths of their unit,
//! or billionths where they are small (`matrix`, `tracking`), saturating at
//! a fixed magnitude, so that no command of the player can make a number
//! overflow or lose its meaning.

pub mod beam;
pub mod beam_play;
pub mod booster;
pub mod booster_play;
pub mod bump;
pub mod chance;
pub mod controls;
pub mod corrector;
pub mod decimal;
pub mod energy;
pub mod fixed;
pub mod history;
pub mod input;
pub mod kicks;
pub mod lattice;
pub mod loss;
pub mod matrix;
pub mod notice;
pub mod optics;
pub mod orbit;
pub mod phase;
pub mod ramp;
pub mod score_file;
pub mod scores;
pub mod shell;
pub mod stability;
pub mod tab;
pub mod tracking;
