//! The session as an explicit state machine. The caller performs the
//! reading and printing; the session decides how each line of input
//! moves the game forward and keeps the statistics honest.

use vstd::prelude::*;
use crate::choice::ComputerChoice;
use crate::choice::UserChoice;
use crate::choice::parse_user_choice;
use crate::game::Game;
use crate::game::GameResult;
use crate::game::resolve;
use crate::stats::Stats;
use crate::stats::draws_in;
use crate::stats::lemma_outcome_counts_sum;
use crate::stats::losses_in;
use crate::stats::wins_in;
use crate::text::trimmed;
use crate::text::trimmed_text;

verus! {

/// Where the session stands: waiting for a choice, waiting for the
/// play-again answer, or over.
#[derive(Clone, Copy, Debug, PartialEq, Eq, Structural)]
pub enum SessionState {
    AwaitingChoice,
    AwaitingContinue,
    Terminated,
}

/// Whether a play-again answer asks for one more round: exactly the
/// letter "y" once surrounding whitespace is removed, case-sensitively.
/// Any other answer ends the session.
pub open spec fn replay_requested(s: Seq<char>) -> bool {
    trimmed(s) == seq!['y']
}

/// Decides the play-again answer.
pub fn wants_replay(input: &str) -> (r: bool)
    ensures
        r == replay_requested(input@),
{
    let v = trimmed_text(input);
    if v.len() == 1 && v[0] == 'y' {
        assert(v@ =~= seq!['y']);
        true
    } else {
        false
    }
}

/// One play session: the current state, the running counters, and the
/// outcomes recorded so far.
pub struct Session {
    pub state: SessionState,
    pub stats: Stats,
    pub history: Ghost<Seq<GameResult>>,
}

impl Session {
    /// Each counter equals the count of its outcome in the recorded
    /// history, so the counters sum to the number of completed rounds,
    /// and that number fits the counters' type.
    pub open spec fn well_formed(self) -> bool {
        &&& self.stats.wins == wins_in(self.history@)
        &&& self.stats.losses == losses_in(self.history@)
        &&& self.stats.draws == draws_in(self.history@)
        &&& self.history@.len() <= i32::MAX
    }

    /// The number of completed rounds.
    pub open spec fn rounds(self) -> nat {
        self.history@.len()
    }

    /// A fresh session: waiting for the first choice, all counters zero.
    pub fn new() -> (s: Session)
        ensures
            s.well_formed(),
            s.state == SessionState::AwaitingChoice,
            s.stats.wins == 0,
            s.stats.losses == 0,
            s.stats.draws == 0,
            s.history@ == Seq::<GameResult>::empty(),
    {
        Session { state: SessionState::AwaitingChoice, stats: Stats::new(), history: Ghost(Seq::empty()) }
    }

    /// The number of completed rounds, as the counters' sum.
    pub fn rounds_played(&self) -> (n: i32)
        requires
            self.well_formed(),
        ensures
            n == self.rounds(),
    {
        proof {
            lemma_outcome_counts_sum(self.history@);
        }
        self.stats.wins + self.stats.losses + self.stats.draws
    }

    /// Feeds one line of player input while a choice is awaited. A line
    /// that parses resolves a round against `computer_choice`, folds the
    /// outcome into the statistics and moves on to the play-again
    /// question; any other line changes nothing, so the caller prompts
    /// again.
    pub fn submit_choice(&mut self, input: &str, computer_choice: ComputerChoice) -> (r: Option<
        Game,
    >)
        requires
            old(self).well_formed(),
            old(self).state == SessionState::AwaitingChoice,
            old(self).rounds() < i32::MAX,
        ensures
            final(self).well_formed(),
            match parse_user_choice(input@) {
                Ok(user_choice) => {
                    let result = resolve(user_choice.0, computer_choice.0);
                    &&& r == Some(
                        (Game { user_choice, computer_choice, game_result: result }),
                    )
                    &&& final(self).state == SessionState::AwaitingContinue
                    &&& final(self).history@ == old(self).history@.push(result)
                },
                Err(()) => {
                    &&& r == None::<Game>
                    &&& *final(self) == *old(self)
                },
            },
    {
        match UserChoice::try_from(input) {
            Ok(user_choice) => {
                let game = Game::new(user_choice, computer_choice);
                proof {
                    lemma_outcome_counts_sum(self.history@);
                }
                self.stats.update(&game.game_result);
                self.state = SessionState::AwaitingContinue;
                proof {
                    let h = self.history@;
                    assert(h.push(game.game_result).drop_last() =~= h);
                }
                self.history = Ghost(self.history@.push(game.game_result));
                Some(game)
            },
            Err(()) => None,
        }
    }

    /// Feeds the play-again answer: "y" (after trimming) starts the next
    /// round, anything else ends the session. Statistics and history are
    /// untouched.
    pub fn submit_continue(&mut self, input: &str)
        requires
            old(self).state == SessionState::AwaitingContinue,
        ensures
            final(self).stats == old(self).stats,
            final(self).history == old(self).history,
            old(self).well_formed() ==> final(self).well_formed(),
            final(self).state == (if replay_requested(input@) {
                SessionState::AwaitingChoice
            } else {
                SessionState::Terminated
            }),
    {
        if wants_replay(input) {
            self.state = SessionState::AwaitingChoice;
        } else {
            self.state = SessionState::Terminated;
        }
    }
}

} // verus!
