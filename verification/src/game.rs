//! Resolving one round: the beats-cycle over the three choices, the
//! outcome of a round, and the round record itself.

use vstd::prelude::*;
use crate::Choice;
use crate::choice::ComputerChoice;
use crate::choice::UserChoice;

verus! {

/// The standard beats-cycle: rock beats scissors, paper beats rock,
/// scissors beats paper.
pub open spec fn beats(a: Choice, b: Choice) -> bool {
    ||| (a == Choice::Rock && b == Choice::Scissors)
    ||| (a == Choice::Paper && b == Choice::Rock)
    ||| (a == Choice::Scissors && b == Choice::Paper)
}

/// The outcome of a round, from the player's side.
#[derive(Clone, Copy, Debug, PartialEq, Eq, Structural)]
pub enum GameResult {
    Win,
    Loss,
    Draw,
}

/// How a pair of choices resolves: equal choices draw, otherwise the
/// beats-cycle decides. The outcome is a pure function of the two
/// choices; nothing else enters.
pub open spec fn resolve(player: Choice, opponent: Choice) -> GameResult {
    if player == opponent {
        GameResult::Draw
    } else if beats(player, opponent) {
        GameResult::Win
    } else {
        GameResult::Loss
    }
}

impl GameResult {
    /// Resolves one round between the player and the computer.
    pub fn get(user_choice: &UserChoice, computer_choice: &ComputerChoice) -> (r: GameResult)
        ensures
            r == resolve(user_choice.0, computer_choice.0),
    {
        let player = user_choice.0;
        let opponent = computer_choice.0;
        if player == opponent {
            GameResult::Draw
        } else {
            match (player, opponent) {
                (Choice::Rock, Choice::Scissors) => GameResult::Win,
                (Choice::Paper, Choice::Rock) => GameResult::Win,
                (Choice::Scissors, Choice::Paper) => GameResult::Win,
                _ => GameResult::Loss,
            }
        }
    }

    /// The message reported for the outcome.
    pub fn message(&self) -> (r: &'static str)
        ensures
            *self == GameResult::Win ==> r@ == "You won!"@,
            *self == GameResult::Loss ==> r@ == "You lost!"@,
            *self == GameResult::Draw ==> r@ == "The game is a draw."@,
    {
        match self {
            GameResult::Win => "You won!",
            GameResult::Loss => "You lost!",
            GameResult::Draw => "The game is a draw.",
        }
    }
}

/// The beats-relation is a 3-cycle and resolution follows it exactly:
/// equal choices draw; unequal choices never tie, the winner is the one
/// the cycle favours, and the relation is anti-symmetric.
pub proof fn lemma_resolution_follows_beats_cycle(a: Choice, b: Choice)
    ensures
        beats(Choice::Rock, Choice::Scissors),
        beats(Choice::Paper, Choice::Rock),
        beats(Choice::Scissors, Choice::Paper),
        beats(a, b) ==> !beats(b, a),
        a == b ==> resolve(a, b) == GameResult::Draw,
        a != b ==> (beats(a, b) || beats(b, a)),
        a != b ==> (resolve(a, b) == GameResult::Win <==> beats(a, b)),
        a != b ==> (resolve(a, b) == GameResult::Loss <==> beats(b, a)),
        a != b ==> resolve(a, b) != GameResult::Draw,
{
}

/// One completed round: both choices and the outcome they resolve to.
#[derive(Clone, Copy, Debug, PartialEq, Eq, Structural)]
pub struct Game {
    pub user_choice: UserChoice,
    pub computer_choice: ComputerChoice,
    pub game_result: GameResult,
}

impl Game {
    /// Builds the round record for the two given choices. Randomness is
    /// injected by the caller through `computer_choice`; the outcome is
    /// fully determined by the arguments.
    pub fn new(user_choice: UserChoice, computer_choice: ComputerChoice) -> (g: Game)
        ensures
            g.user_choice == user_choice,
            g.computer_choice == computer_choice,
            g.game_result == resolve(user_choice.0, computer_choice.0),
    {
        let game_result = GameResult::get(&user_choice, &computer_choice);
        Game { user_choice, computer_choice, game_result }
    }
}

} // verus!
