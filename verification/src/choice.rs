//! The player's and the computer's choices, and how each is obtained:
//! the player's by parsing a line of input, the computer's from a
//! uniformly sampled index.

use vstd::prelude::*;
use crate::Choice;
use crate::rng::random_index;
use crate::text::normalize;
use crate::text::normalize_text;

verus! {

pub open spec fn rock_word() -> Seq<char> {
    seq!['r', 'o', 'c', 'k']
}

pub open spec fn paper_word() -> Seq<char> {
    seq!['p', 'a', 'p', 'e', 'r']
}

pub open spec fn scissors_word() -> Seq<char> {
    seq!['s', 'c', 'i', 's', 's', 'o', 'r', 's']
}

/// What parsing a raw input line yields: the matching choice when the
/// normalized text is exactly one of the three words, otherwise the
/// invalid-choice signal. No partial matches, no abbreviations.
pub open spec fn parse_user_choice(s: Seq<char>) -> Result<UserChoice, ()> {
    let n = normalize(s);
    if n == rock_word() {
        Ok(UserChoice(Choice::Rock))
    } else if n == paper_word() {
        Ok(UserChoice(Choice::Paper))
    } else if n == scissors_word() {
        Ok(UserChoice(Choice::Scissors))
    } else {
        Err(())
    }
}

/// A choice made by the player.
#[derive(Clone, Copy, Debug, PartialEq, Eq, Structural)]
pub struct UserChoice(pub Choice);

impl UserChoice {
    /// Parses one line of player input. The line is trimmed and
    /// case-folded, then matched exactly against the three words;
    /// anything else is rejected so the caller can prompt again.
    pub fn try_from(input: &str) -> (r: Result<UserChoice, ()>)
        ensures
            r == parse_user_choice(input@),
    {
        let v = normalize_text(input);
        if v.len() == 4 && v[0] == 'r' && v[1] == 'o' && v[2] == 'c' && v[3] == 'k' {
            assert(v@ =~= rock_word());
            Ok(UserChoice(Choice::Rock))
        } else if v.len() == 5 && v[0] == 'p' && v[1] == 'a' && v[2] == 'p' && v[3] == 'e'
            && v[4] == 'r' {
            assert(v@ =~= paper_word());
            Ok(UserChoice(Choice::Paper))
        } else if v.len() == 8 && v[0] == 's' && v[1] == 'c' && v[2] == 'i' && v[3] == 's'
            && v[4] == 's' && v[5] == 'o' && v[6] == 'r' && v[7] == 's' {
            assert(v@ =~= scissors_word());
            Ok(UserChoice(Choice::Scissors))
        } else {
            Err(())
        }
    }
}

/// Each of the three words, given exactly in lowercase with nothing
/// around it, parses to its matching choice: such input is already in
/// canonical form, so the match is exact.
pub proof fn lemma_exact_words_parse()
    ensures
        parse_user_choice(rock_word()) == Ok::<UserChoice, ()>(UserChoice(Choice::Rock)),
        parse_user_choice(paper_word()) == Ok::<UserChoice, ()>(UserChoice(Choice::Paper)),
        parse_user_choice(scissors_word()) == Ok::<UserChoice, ()>(UserChoice(Choice::Scissors)),
{
    assert(normalize(rock_word()) =~= rock_word());
    assert(normalize(paper_word()) =~= paper_word());
    assert(normalize(scissors_word()) =~= scissors_word());
    assert(rock_word() != paper_word() && rock_word() != scissors_word());
}

/// Which choice a sampled index stands for: 0 is rock, 1 is paper,
/// anything further is scissors; the sampler never goes past 2.
pub open spec fn index_choice(i: int) -> Choice {
    if i == 0 {
        Choice::Rock
    } else if i == 1 {
        Choice::Paper
    } else {
        Choice::Scissors
    }
}

/// A choice made by the computer.
#[derive(Clone, Copy, Debug, PartialEq, Eq, Structural)]
pub struct ComputerChoice(pub Choice);

impl ComputerChoice {
    /// Maps a sampled index to a choice. The mapping is total over the
    /// sampled range by construction: an out-of-range index is ruled out
    /// here rather than silently defaulted.
    pub fn from(index: u8) -> (r: ComputerChoice)
        requires
            index < 3,
        ensures
            r.0 == index_choice(index as int),
    {
        match index {
            0 => ComputerChoice(Choice::Rock),
            1 => ComputerChoice(Choice::Paper),
            _ => ComputerChoice(Choice::Scissors),
        }
    }

    /// Draws the computer's choice from a uniform sample over the three
    /// indices. The result is random; nothing beyond its validity is
    /// promised.
    pub fn get() -> (r: ComputerChoice) {
        ComputerChoice::from(random_index())
    }
}

} // verus!
