use rusty_bot::args::Args;
use rusty_bot::fun::{guess, guess_arguments};
use rusty_bot::guess::{invalid_game_text, GuessEvent, GuessReply, GuessSession, GuessState};

fn say(text: &str) -> GuessEvent {
    GuessEvent::Message(text.to_string())
}

#[test]
fn three_guesses_higher_lower_correct() {
    let mut game = GuessSession::with_secret(1, 10, 3, 7, 1, 2).unwrap();
    assert_eq!(game.state, GuessState::AwaitingGuess { attempts_remaining: 3 });
    assert_eq!(game.step(&say("3")), vec![GuessReply::TryHigher]);
    assert_eq!(game.state, GuessState::AwaitingGuess { attempts_remaining: 2 });
    assert_eq!(game.step(&say("9")), vec![GuessReply::TryLower]);
    assert_eq!(game.state, GuessState::AwaitingGuess { attempts_remaining: 1 });
    assert_eq!(game.step(&say("7")), vec![GuessReply::Correct]);
    assert_eq!(game.state, GuessState::Won);
    assert!(game.is_finished());
}

#[test]
fn invalid_input_does_not_use_an_attempt() {
    let mut game = GuessSession::with_secret(1, 10, 2, 7, 1, 2).unwrap();
    assert_eq!(game.step(&say("seven")), vec![GuessReply::InvalidInput]);
    assert_eq!(game.attempts_remaining(), 2);
    assert_eq!(game.step(&say("")), vec![GuessReply::InvalidInput]);
    assert_eq!(game.step(&say(" 7")), vec![GuessReply::InvalidInput]);
    assert_eq!(game.attempts_remaining(), 2);
    assert_eq!(game.step(&say("1")), vec![GuessReply::TryHigher]);
    assert_eq!(game.attempts_remaining(), 1);
    assert!(!game.is_finished());
    assert_eq!(game.step(&say("7")), vec![GuessReply::Correct]);
    assert_eq!(game.state, GuessState::Won);
}

#[test]
fn running_out_reveals_the_secret() {
    let mut game = GuessSession::with_secret(-5, 5, 2, -3, 1, 2).unwrap();
    assert_eq!(game.step(&say("4")), vec![GuessReply::TryLower]);
    assert_eq!(
        game.step(&say("-4")),
        vec![GuessReply::TryHigher, GuessReply::OutOfAttempts { secret: -3 }]
    );
    assert_eq!(game.state, GuessState::Exhausted);
    assert_eq!(game.attempts_remaining(), 0);
    assert_eq!(game.step(&say("-3")), vec![]);
    assert_eq!(game.state, GuessState::Exhausted);
}

#[test]
fn timeout_expires_the_game() {
    let mut game = GuessSession::with_secret(1, 10, 3, 7, 1, 2).unwrap();
    assert_eq!(game.step(&GuessEvent::Timeout), vec![GuessReply::NoResponse]);
    assert_eq!(game.state, GuessState::Expired);
    assert_eq!(game.step(&GuessEvent::Timeout), vec![]);
    assert_eq!(game.step(&say("7")), vec![]);
    assert_eq!(game.state, GuessState::Expired);
}

#[test]
fn guesses_outside_the_bounds_count() {
    let mut game = GuessSession::with_secret(1, 10, 3, 7, 1, 2).unwrap();
    assert_eq!(game.step(&say("-2147483648")), vec![GuessReply::TryHigher]);
    assert_eq!(game.step(&say("+2147483647")), vec![GuessReply::TryLower]);
    assert_eq!(game.attempts_remaining(), 1);
    assert_eq!(game.step(&say("2147483648")), vec![GuessReply::InvalidInput]);
    assert_eq!(game.attempts_remaining(), 1);
}

#[test]
fn games_need_a_range_and_an_attempt() {
    assert!(GuessSession::with_secret(5, 5, 3, 5, 1, 2).is_none());
    assert!(GuessSession::with_secret(6, 5, 3, 5, 1, 2).is_none());
    assert!(GuessSession::with_secret(1, 10, 0, 5, 1, 2).is_none());
    assert!(GuessSession::with_secret(1, 10, -1, 5, 1, 2).is_none());
    assert!(GuessSession::with_secret(1, 10, 3, 11, 1, 2).is_none());
    assert!(GuessSession::with_secret(1, 10, 3, 0, 1, 2).is_none());
    assert!(GuessSession::start(5, 5, 3, 1, 2).is_none());
    assert!(GuessSession::start(1, 10, 0, 1, 2).is_none());
    assert_eq!(
        invalid_game_text(),
        "Invalid input. Usage: `rguess <min number> <max number> <attempts>`"
    );
}

#[test]
fn started_games_draw_within_the_bounds() {
    for _ in 0..200 {
        let game = GuessSession::start(3, 5, 4, 11, 22).unwrap();
        assert!(3 <= game.secret && game.secret <= 5);
        assert_eq!(game.min, 3);
        assert_eq!(game.max, 5);
        assert_eq!(game.attempts, 4);
        assert_eq!(game.user_id, 11);
        assert_eq!(game.channel_id, 22);
        assert_eq!(game.state, GuessState::AwaitingGuess { attempts_remaining: 4 });
    }
    let wide = GuessSession::start(i32::MIN, i32::MAX, 1, 0, 0);
    assert!(wide.is_some());
}

#[test]
fn game_texts() {
    let game = GuessSession::with_secret(-1, 10, 3, 7, 1, 2).unwrap();
    assert_eq!(
        game.intro(),
        "I'm thinking of a number between -1 and 10. You have 3 attempts."
    );
    assert_eq!(game.prompt(), "Enter your guess (3 attempts remaining):");
    assert_eq!(GuessReply::InvalidInput.text(), "Invalid input. Please enter a valid number.");
    assert_eq!(GuessReply::TryHigher.text(), "Try a higher number.");
    assert_eq!(GuessReply::TryLower.text(), "Try a lower number.");
    assert_eq!(GuessReply::Correct.text(), "Congratulations! You guessed the correct number!");
    assert_eq!(GuessReply::NoResponse.text(), "No response received. Exiting game.");
    assert_eq!(
        GuessReply::OutOfAttempts { secret: 7 }.text(),
        "You've run out of attempts. The secret number was 7."
    );
    assert_eq!(
        GuessReply::OutOfAttempts { secret: i32::MIN }.text(),
        "You've run out of attempts. The secret number was -2147483648."
    );
    assert_eq!(
        GuessReply::OutOfAttempts { secret: 0 }.text(),
        "You've run out of attempts. The secret number was 0."
    );
}

#[test]
fn guess_arguments_default_to_zero() {
    assert_eq!(guess_arguments(&mut Args::new("1 10 3")), (1, 10, 3));
    assert_eq!(guess_arguments(&mut Args::new("1 10")), (1, 10, 0));
    assert_eq!(guess_arguments(&mut Args::new("")), (0, 0, 0));
    assert_eq!(guess_arguments(&mut Args::new("1 x 3")), (1, 0, 0));
    assert_eq!(guess_arguments(&mut Args::new("x 1 3")), (0, 0, 0));
    assert_eq!(guess_arguments(&mut Args::new("-5 5 2 extra")), (-5, 5, 2));
}

#[test]
fn guess_command_starts_playable_games_only() {
    let game = guess(&mut Args::new("1 10 3"), 5, 6).unwrap();
    assert_eq!((game.min, game.max, game.attempts), (1, 10, 3));
    assert_eq!((game.user_id, game.channel_id), (5, 6));
    assert!(1 <= game.secret && game.secret <= 10);
    assert!(guess(&mut Args::new("10 1 3"), 5, 6).is_none());
    assert!(guess(&mut Args::new("1 10"), 5, 6).is_none());
    assert!(guess(&mut Args::new("1 x 3"), 5, 6).is_none());
    assert!(guess(&mut Args::new(""), 5, 6).is_none());
}
