//! Running statistics over a session: one counter per outcome, each
//! round incrementing exactly one of them.

use vstd::prelude::*;
use crate::game::GameResult;

verus! {

/// How many of the outcomes are wins.
pub open spec fn wins_in(rs: Seq<GameResult>) -> nat
    decreases rs.len(),
{
    if rs.len() == 0 {
        0
    } else {
        wins_in(rs.drop_last()) + (if rs.last() == GameResult::Win {
            1nat
        } else {
            0nat
        })
    }
}

/// How many of the outcomes are losses.
pub open spec fn losses_in(rs: Seq<GameResult>) -> nat
    decreases rs.len(),
{
    if rs.len() == 0 {
        0
    } else {
        losses_in(rs.drop_last()) + (if rs.last() == GameResult::Loss {
            1nat
        } else {
            0nat
        })
    }
}

/// How many of the outcomes are draws.
pub open spec fn draws_in(rs: Seq<GameResult>) -> nat
    decreases rs.len(),
{
    if rs.len() == 0 {
        0
    } else {
        draws_in(rs.drop_last()) + (if rs.last() == GameResult::Draw {
            1nat
        } else {
            0nat
        })
    }
}

/// Total counts depend only on how many outcomes arrived, never on their
/// order: for every sequence of outcomes, wins, losses and draws add up
/// to its length.
pub proof fn lemma_outcome_counts_sum(rs: Seq<GameResult>)
    ensures
        wins_in(rs) + losses_in(rs) + draws_in(rs) == rs.len(),
    decreases rs.len(),
{
    if rs.len() > 0 {
        lemma_outcome_counts_sum(rs.drop_last());
    }
}

/// Win, loss and draw counters for a session. Counters never decrease
/// and are never reset; their sum is the number of completed rounds.
#[derive(Clone, Copy, Debug, PartialEq, Eq, Structural)]
pub struct Stats {
    pub wins: i32,
    pub losses: i32,
    pub draws: i32,
}

impl Stats {
    /// All three counters are non-negative.
    pub open spec fn well_formed(self) -> bool {
        0 <= self.wins && 0 <= self.losses && 0 <= self.draws
    }

    /// The number of rounds folded in so far.
    pub open spec fn total(self) -> int {
        self.wins + self.losses + self.draws
    }

    /// Fresh statistics: no round played yet.
    pub fn new() -> (s: Stats)
        ensures
            s.wins == 0,
            s.losses == 0,
            s.draws == 0,
    {
        Stats { wins: 0, losses: 0, draws: 0 }
    }

    /// Folds one outcome in: exactly the matching counter goes up by one.
    pub fn update(&mut self, game_result: &GameResult)
        requires
            old(self).well_formed(),
            old(self).total() < i32::MAX,
        ensures
            final(self).wins == old(self).wins + (if *game_result == GameResult::Win {
                1int
            } else {
                0int
            }),
            final(self).losses == old(self).losses + (if *game_result == GameResult::Loss {
                1int
            } else {
                0int
            }),
            final(self).draws == old(self).draws + (if *game_result == GameResult::Draw {
                1int
            } else {
                0int
            }),
            final(self).well_formed(),
            final(self).total() == old(self).total() + 1,
    {
        match game_result {
            GameResult::Win => self.wins = self.wins + 1,
            GameResult::Loss => self.losses = self.losses + 1,
            GameResult::Draw => self.draws = self.draws + 1,
        }
    }
}

} // verus!
