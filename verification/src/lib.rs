//! A verified rock-paper-scissors round engine.
//!
//! The library parses a player's choice from raw text, resolves a round
//! against an opponent's choice under the standard beats-cycle, folds
//! outcomes into running statistics, and drives the session as an explicit
//! state machine. All input and output stays with the caller; the engine
//! works on plain values.

use vstd::prelude::*;

pub mod choice;
pub mod game;
mod rng;
pub mod session;
pub mod stats;
pub mod text;

verus! {

/// One of the three playable hand shapes.
#[derive(Clone, Copy, Debug, PartialEq, Eq, Structural)]
pub enum Choice {
    Rock,
    Paper,
    Scissors,
}

impl Choice {
    /// The lowercase display name of the choice.
    pub fn as_text(&self) -> (r: &'static str)
        ensures
            *self == Choice::Rock ==> r@ == "rock"@,
            *self == Choice::Paper ==> r@ == "paper"@,
            *self == Choice::Scissors ==> r@ == "scissors"@,
    {
        match self {
            Choice::Rock => "rock",
            Choice::Paper => "paper",
            Choice::Scissors => "scissors",
        }
    }
}

} // verus!
