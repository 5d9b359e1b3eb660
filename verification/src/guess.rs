//! The number-guessing game: one session per player, advanced one event at
//! a time.

use vstd::prelude::*;
use vstd::string::*;
use rand::Rng;
use crate::text::{parse_i32, parsed_i32, push_signed_decimal, signed_decimal};

verus! {

/// Where a game stands. The three states other than `AwaitingGuess` are final.
#[derive(Clone, Copy, Debug, PartialEq, Eq, Structural)]
pub enum GuessState {
    AwaitingGuess { attempts_remaining: i32 },
    Won,
    Exhausted,
    Expired,
}

/// What happened while the game waited for the player.
#[derive(Clone, Debug, PartialEq, Eq)]
pub enum GuessEvent {
    /// The player sent a message with this content.
    Message(String),
    /// The wait for a message ran out.
    Timeout,
}

/// What the game says to the player.
#[derive(Clone, Copy, Debug, PartialEq, Eq, Structural)]
pub enum GuessReply {
    InvalidInput,
    TryHigher,
    TryLower,
    Correct,
    OutOfAttempts { secret: i32 },
    NoResponse,
}

/// A game in progress or finished.
#[derive(Clone, Copy, Debug, PartialEq, Eq, Structural)]
pub struct GuessSession {
    pub min: i32,
    pub max: i32,
    /// The number of attempts the game was started with.
    pub attempts: i32,
    pub secret: i32,
    pub state: GuessState,
    pub user_id: u64,
    pub channel_id: u64,
}

/// Whether a game can be started with these bounds and attempts.
pub open spec fn playable(min: i32, max: i32, attempts: i32) -> bool {
    min < max && attempts > 0
}

/// The state that follows `state` on `event`, in a game whose secret is
/// `secret`. A message that is no number changes nothing; a wrong number
/// costs one attempt; a final state stays.
pub open spec fn state_after(state: GuessState, secret: i32, event: GuessEvent) -> GuessState {
    match state {
        GuessState::AwaitingGuess { attempts_remaining } => match event {
            GuessEvent::Timeout => GuessState::Expired,
            GuessEvent::Message(content) => match parsed_i32(content@) {
                None => state,
                Some(guess) => if guess == secret {
                    GuessState::Won
                } else if attempts_remaining <= 1 {
                    GuessState::Exhausted
                } else {
                    GuessState::AwaitingGuess { attempts_remaining: (attempts_remaining - 1) as i32 }
                },
            },
        },
        _ => state,
    }
}

/// What the game says on `event` in `state`, in order.
pub open spec fn replies_to(state: GuessState, secret: i32, event: GuessEvent) -> Seq<GuessReply> {
    match state {
        GuessState::AwaitingGuess { attempts_remaining } => match event {
            GuessEvent::Timeout => seq![GuessReply::NoResponse],
            GuessEvent::Message(content) => match parsed_i32(content@) {
                None => seq![GuessReply::InvalidInput],
                Some(guess) => if guess == secret {
                    seq![GuessReply::Correct]
                } else {
                    let hint = if guess < secret {
                        GuessReply::TryHigher
                    } else {
                        GuessReply::TryLower
                    };
                    if attempts_remaining <= 1 {
                        seq![hint, GuessReply::OutOfAttempts { secret }]
                    } else {
                        seq![hint]
                    }
                },
            },
        },
        _ => Seq::empty(),
    }
}

/// The text of a reply.
pub open spec fn reply_text(reply: GuessReply) -> Seq<char> {
    match reply {
        GuessReply::InvalidInput => "Invalid input. Please enter a valid number."@,
        GuessReply::TryHigher => "Try a higher number."@,
        GuessReply::TryLower => "Try a lower number."@,
        GuessReply::Correct => "Congratulations! You guessed the correct number!"@,
        GuessReply::OutOfAttempts { secret } => "You've run out of attempts. The secret number was "@
            + signed_decimal(secret as int) + "."@,
        GuessReply::NoResponse => "No response received. Exiting game."@,
    }
}

impl GuessReply {
    /// The text of the reply.
    pub fn text(&self) -> (r: String)
        ensures
            r@ == reply_text(*self),
    {
        match self {
            GuessReply::InvalidInput => String::from_str("Invalid input. Please enter a valid number."),
            GuessReply::TryHigher => String::from_str("Try a higher number."),
            GuessReply::TryLower => String::from_str("Try a lower number."),
            GuessReply::Correct => String::from_str(
                "Congratulations! You guessed the correct number!",
            ),
            GuessReply::OutOfAttempts { secret } => {
                let mut s = String::from_str("You've run out of attempts. The secret number was ");
                push_signed_decimal(&mut s, *secret as i64);
                s.append(".");
                s
            },
            GuessReply::NoResponse => String::from_str("No response received. Exiting game."),
        }
    }
}

/// Draws a number between `min` and `max`, both included. Wraps
/// `rand::Rng::gen_range` on the thread's generator with the range
/// `min..=max`, which must not be empty; nothing is said of which number
/// comes out.
#[verifier::external_body]
fn draw_between(min: i32, max: i32) -> (r: i32)
    requires
        min <= max,
    ensures
        min <= r <= max,
{
    rand::thread_rng().gen_range(min..=max)
}

/// What is said to a player who asks for a game that cannot be played.
pub fn invalid_game_text() -> (r: String)
    ensures
        r@ == "Invalid input. Usage: `rguess <min number> <max number> <attempts>`"@,
{
    String::from_str("Invalid input. Usage: `rguess <min number> <max number> <attempts>`")
}

impl GuessSession {
    /// A session is well formed when its bounds and attempts make a playable
    /// game, the secret lies within the bounds, and a game that awaits a
    /// guess has between one and all of its attempts left.
    pub open spec fn wf(&self) -> bool {
        &&& playable(self.min, self.max, self.attempts)
        &&& self.min <= self.secret <= self.max
        &&& match self.state {
            GuessState::AwaitingGuess { attempts_remaining } => 0 < attempts_remaining
                <= self.attempts,
            _ => true,
        }
    }

    /// Whether the game is over.
    pub open spec fn finished(&self) -> bool {
        !(self.state is AwaitingGuess)
    }

    /// A new game with a given secret. There is a game exactly where
    /// `min < max`, `attempts > 0` and the secret lies within the bounds.
    pub fn with_secret(
        min: i32,
        max: i32,
        attempts: i32,
        secret: i32,
        user_id: u64,
        channel_id: u64,
    ) -> (r: Option<GuessSession>)
        ensures
            r.is_some() <==> playable(min, max, attempts) && min <= secret <= max,
            r matches Some(s) ==> s.wf() && s == (GuessSession {
                min,
                max,
                attempts,
                secret,
                state: GuessState::AwaitingGuess { attempts_remaining: attempts },
                user_id,
                channel_id,
            }),
    {
        if min >= max || attempts <= 0 || secret < min || secret > max {
            None
        } else {
            Some(
                GuessSession {
                    min,
                    max,
                    attempts,
                    secret,
                    state: GuessState::AwaitingGuess { attempts_remaining: attempts },
                    user_id,
                    channel_id,
                },
            )
        }
    }

    /// A new game with a secret drawn at random from `min` to `max`, both
    /// included. There is a game exactly where `min < max` and `attempts > 0`.
    pub fn start(min: i32, max: i32, attempts: i32, user_id: u64, channel_id: u64) -> (r: Option<
        GuessSession,
    >)
        ensures
            r.is_some() <==> playable(min, max, attempts),
            r matches Some(s) ==> s.wf() && s == (GuessSession {
                min,
                max,
                attempts,
                secret: s.secret,
                state: GuessState::AwaitingGuess { attempts_remaining: attempts },
                user_id,
                channel_id,
            }),
    {
        if min >= max || attempts <= 0 {
            None
        } else {
            let secret = draw_between(min, max);
            GuessSession::with_secret(min, max, attempts, secret, user_id, channel_id)
        }
    }

    /// Whether the game is over.
    pub fn is_finished(&self) -> (r: bool)
        ensures
            r == self.finished(),
    {
        match self.state {
            GuessState::AwaitingGuess { .. } => false,
            _ => true,
        }
    }

    /// The attempts left: none once the game is over.
    pub fn attempts_remaining(&self) -> (r: i32)
        ensures
            r == match self.state {
                GuessState::AwaitingGuess { attempts_remaining } => attempts_remaining,
                _ => 0,
            },
    {
        match self.state {
            GuessState::AwaitingGuess { attempts_remaining } => attempts_remaining,
            _ => 0,
        }
    }

    /// Advances the game by one event and returns what to say to the player.
    /// Only the state changes.
    pub fn step(&mut self, event: &GuessEvent) -> (r: Vec<GuessReply>)
        ensures
            final(self).state == state_after(old(self).state, old(self).secret, *event),
            r@ == replies_to(old(self).state, old(self).secret, *event),
            *final(self) == (GuessSession { state: final(self).state, ..*old(self) }),
            old(self).wf() ==> final(self).wf(),
    {
        let mut out: Vec<GuessReply> = Vec::new();
        match self.state {
            GuessState::AwaitingGuess { attempts_remaining } => match event {
                GuessEvent::Timeout => {
                    out.push(GuessReply::NoResponse);
                    self.state = GuessState::Expired;
                },
                GuessEvent::Message(content) => match parse_i32(content.as_str()) {
                    None => {
                        out.push(GuessReply::InvalidInput);
                    },
                    Some(guess) => {
                        if guess == self.secret {
                            out.push(GuessReply::Correct);
                            self.state = GuessState::Won;
                        } else {
                            if guess < self.secret {
                                out.push(GuessReply::TryHigher);
                            } else {
                                out.push(GuessReply::TryLower);
                            }
                            if attempts_remaining <= 1 {
                                out.push(GuessReply::OutOfAttempts { secret: self.secret });
                                self.state = GuessState::Exhausted;
                            } else {
                                self.state = GuessState::AwaitingGuess {
                                    attempts_remaining: attempts_remaining - 1,
                                };
                            }
                        }
                    },
                },
            },
            _ => {},
        }
        proof {
            assert(out@ =~= replies_to(old(self).state, old(self).secret, *event));
        }
        out
    }

    /// The announcement that opens the game.
    pub fn intro(&self) -> (r: String)
        ensures
            r@ == "I'm thinking of a number between "@ + signed_decimal(self.min as int) + " and "@
                + signed_decimal(self.max as int) + ". You have "@ + signed_decimal(
                self.attempts as int,
            ) + " attempts."@,
    {
        let mut s = String::from_str("I'm thinking of a number between ");
        push_signed_decimal(&mut s, self.min as i64);
        s.append(" and ");
        push_signed_decimal(&mut s, self.max as i64);
        s.append(". You have ");
        push_signed_decimal(&mut s, self.attempts as i64);
        s.append(" attempts.");
        s
    }

    /// The request for the next guess. It names the number of attempts the
    /// game was started with.
    pub fn prompt(&self) -> (r: String)
        ensures
            r@ == "Enter your guess ("@ + signed_decimal(self.attempts as int)
                + " attempts remaining):"@,
    {
        let mut s = String::from_str("Enter your guess (");
        push_signed_decimal(&mut s, self.attempts as i64);
        s.append(" attempts remaining):");
        s
    }
}

/// A message that is no number leaves the game as it was: no attempt is used.
pub proof fn law_invalid_input_keeps_attempts(state: GuessState, secret: i32, content: String)
    requires
        parsed_i32(content@).is_none(),
        state is AwaitingGuess,
    ensures
        state_after(state, secret, GuessEvent::Message(content)) == state,
        replies_to(state, secret, GuessEvent::Message(content)) == seq![GuessReply::InvalidInput],
{
}

/// A wrong number costs exactly one attempt and earns a hint; the last
/// attempt ends the game and reveals the secret.
pub proof fn law_wrong_guess_costs_one(attempts_remaining: i32, secret: i32, content: String)
    requires
        parsed_i32(content@).is_some(),
        parsed_i32(content@) != Some(secret),
        attempts_remaining > 0,
    ensures
        ({
            let state = GuessState::AwaitingGuess { attempts_remaining };
            let event = GuessEvent::Message(content);
            let hint = if parsed_i32(content@).unwrap() < secret {
                GuessReply::TryHigher
            } else {
                GuessReply::TryLower
            };
            if attempts_remaining == 1 {
                &&& state_after(state, secret, event) == GuessState::Exhausted
                &&& replies_to(state, secret, event) == seq![
                    hint,
                    GuessReply::OutOfAttempts { secret },
                ]
            } else {
                &&& state_after(state, secret, event) == (GuessState::AwaitingGuess {
                    attempts_remaining: (attempts_remaining - 1) as i32,
                })
                &&& replies_to(state, secret, event) == seq![hint]
            }
        }),
{
}

/// A game that is over stays as it is and says nothing more.
pub proof fn law_finished_games_stay(state: GuessState, secret: i32, event: GuessEvent)
    requires
        !(state is AwaitingGuess),
    ensures
        state_after(state, secret, event) == state,
        replies_to(state, secret, event) == Seq::<GuessReply>::empty(),
{
}

/// The secret wins the game from any state that awaits a guess.
pub proof fn law_secret_wins(state: GuessState, secret: i32, content: String)
    requires
        parsed_i32(content@) == Some(secret),
        state is AwaitingGuess,
    ensures
        state_after(state, secret, GuessEvent::Message(content)) == GuessState::Won,
        replies_to(state, secret, GuessEvent::Message(content)) == seq![GuessReply::Correct],
{
}

} // verus!
