use rock_paper_scissors::Choice;
use rock_paper_scissors::choice::ComputerChoice;
use rock_paper_scissors::choice::UserChoice;
use rock_paper_scissors::game::Game;
use rock_paper_scissors::game::GameResult;
use rock_paper_scissors::session::Session;
use rock_paper_scissors::session::SessionState;
use rock_paper_scissors::session::wants_replay;
use rock_paper_scissors::stats::Stats;
use rock_paper_scissors::text::normalize_text;

#[test]
fn parse_valid_lowercase_words() {
    assert_eq!(UserChoice::try_from("rock"), Ok(UserChoice(Choice::Rock)));
    assert_eq!(UserChoice::try_from("paper"), Ok(UserChoice(Choice::Paper)));
    assert_eq!(UserChoice::try_from("scissors"), Ok(UserChoice(Choice::Scissors)));
}

#[test]
fn parse_rejects_anything_else() {
    assert_eq!(UserChoice::try_from("lizard"), Err(()));
    assert_eq!(UserChoice::try_from(""), Err(()));
    assert_eq!(UserChoice::try_from("   "), Err(()));
    assert_eq!(UserChoice::try_from("rocks"), Err(()));
    assert_eq!(UserChoice::try_from("rock paper"), Err(()));
    assert_eq!(UserChoice::try_from("pap er"), Err(()));
}

#[test]
fn parse_mixed_case_and_surrounding_whitespace() {
    assert_eq!(UserChoice::try_from("Scissors \n"), Ok(UserChoice(Choice::Scissors)));
    assert_eq!(UserChoice::try_from("ROCK"), Ok(UserChoice(Choice::Rock)));
    assert_eq!(UserChoice::try_from("\tPaPeR\r\n"), Ok(UserChoice(Choice::Paper)));
}

#[test]
fn normalization_trims_and_folds() {
    let out = normalize_text("  RoCk \n");
    assert_eq!(out, vec!['r', 'o', 'c', 'k']);
    let empty = normalize_text(" \t\r\n");
    assert_eq!(empty, Vec::<char>::new());
}

#[test]
fn resolution_covers_every_pair() {
    let pairs = [
        (Choice::Rock, Choice::Rock, GameResult::Draw),
        (Choice::Rock, Choice::Paper, GameResult::Loss),
        (Choice::Rock, Choice::Scissors, GameResult::Win),
        (Choice::Paper, Choice::Rock, GameResult::Win),
        (Choice::Paper, Choice::Paper, GameResult::Draw),
        (Choice::Paper, Choice::Scissors, GameResult::Loss),
        (Choice::Scissors, Choice::Rock, GameResult::Loss),
        (Choice::Scissors, Choice::Paper, GameResult::Win),
        (Choice::Scissors, Choice::Scissors, GameResult::Draw),
    ];
    for (player, opponent, expected) in pairs {
        let got = GameResult::get(&UserChoice(player), &ComputerChoice(opponent));
        assert_eq!(got, expected);
    }
}

#[test]
fn rock_against_scissors_is_a_win() {
    let user = UserChoice::try_from("rock").unwrap();
    let game = Game::new(user, ComputerChoice(Choice::Scissors));
    assert_eq!(game.game_result, GameResult::Win);
    assert_eq!(game.game_result.message(), "You won!");
}

#[test]
fn paper_against_paper_is_a_draw() {
    let user = UserChoice::try_from("paper").unwrap();
    let game = Game::new(user, ComputerChoice(Choice::Paper));
    assert_eq!(game.game_result, GameResult::Draw);
    assert_eq!(game.game_result.message(), "The game is a draw.");
}

#[test]
fn outcome_messages() {
    assert_eq!(GameResult::Win.message(), "You won!");
    assert_eq!(GameResult::Loss.message(), "You lost!");
    assert_eq!(GameResult::Draw.message(), "The game is a draw.");
}

#[test]
fn choice_names() {
    assert_eq!(Choice::Rock.as_text(), "rock");
    assert_eq!(Choice::Paper.as_text(), "paper");
    assert_eq!(Choice::Scissors.as_text(), "scissors");
}

#[test]
fn stats_three_rounds_one_of_each() {
    let mut stats = Stats::new();
    stats.update(&GameResult::Win);
    stats.update(&GameResult::Loss);
    stats.update(&GameResult::Draw);
    assert_eq!(stats.wins, 1);
    assert_eq!(stats.losses, 1);
    assert_eq!(stats.draws, 1);
}

#[test]
fn stats_totals_ignore_order() {
    let one = [
        GameResult::Win,
        GameResult::Win,
        GameResult::Loss,
        GameResult::Draw,
        GameResult::Draw,
        GameResult::Draw,
    ];
    let other = [
        GameResult::Draw,
        GameResult::Loss,
        GameResult::Draw,
        GameResult::Win,
        GameResult::Draw,
        GameResult::Win,
    ];
    let mut first = Stats::new();
    for outcome in &one {
        first.update(outcome);
    }
    let mut second = Stats::new();
    for outcome in &other {
        second.update(outcome);
    }
    assert_eq!(first, second);
    assert_eq!(first.wins + first.losses + first.draws, 6);
}

#[test]
fn computer_choice_index_mapping() {
    assert_eq!(ComputerChoice::from(0), ComputerChoice(Choice::Rock));
    assert_eq!(ComputerChoice::from(1), ComputerChoice(Choice::Paper));
    assert_eq!(ComputerChoice::from(2), ComputerChoice(Choice::Scissors));
}

#[test]
fn computer_choice_sampled_is_valid() {
    for _ in 0..32 {
        let drawn = ComputerChoice::get();
        assert!(matches!(drawn.0, Choice::Rock | Choice::Paper | Choice::Scissors));
    }
}

#[test]
fn replay_answers() {
    assert!(wants_replay("y"));
    assert!(wants_replay(" y\n"));
    assert!(!wants_replay("Y"));
    assert!(!wants_replay("yes"));
    assert!(!wants_replay("n"));
    assert!(!wants_replay(""));
}

#[test]
fn session_reprompts_on_invalid_input() {
    let mut session = Session::new();
    let rejected = session.submit_choice("lizard", ComputerChoice(Choice::Rock));
    assert!(rejected.is_none());
    assert_eq!(session.state, SessionState::AwaitingChoice);
    assert_eq!(session.rounds_played(), 0);
    let accepted = session.submit_choice("rock", ComputerChoice(Choice::Scissors));
    let game = accepted.unwrap();
    assert_eq!(game.game_result, GameResult::Win);
    assert_eq!(session.state, SessionState::AwaitingContinue);
    assert_eq!(session.rounds_played(), 1);
}

#[test]
fn session_plays_three_rounds() {
    let mut session = Session::new();

    let first = session.submit_choice("rock", ComputerChoice(Choice::Scissors)).unwrap();
    assert_eq!(first.game_result, GameResult::Win);
    session.submit_continue("y\n");
    assert_eq!(session.state, SessionState::AwaitingChoice);

    let second = session.submit_choice("rock", ComputerChoice(Choice::Paper)).unwrap();
    assert_eq!(second.game_result, GameResult::Loss);
    session.submit_continue(" y ");
    assert_eq!(session.state, SessionState::AwaitingChoice);

    let third = session.submit_choice("paper", ComputerChoice(Choice::Paper)).unwrap();
    assert_eq!(third.game_result, GameResult::Draw);
    session.submit_continue("n");
    assert_eq!(session.state, SessionState::Terminated);

    assert_eq!(session.stats.wins, 1);
    assert_eq!(session.stats.losses, 1);
    assert_eq!(session.stats.draws, 1);
    assert_eq!(session.rounds_played(), 3);
}
