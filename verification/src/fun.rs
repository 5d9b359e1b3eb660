//! The games: the eight-ball and the start of the guessing game.

use vstd::prelude::*;
use vstd::string::*;
use rand::seq::SliceRandom;
use crate::args::{next_argument, Args};
use crate::embed::{blank, card_color, credit, Embed, EmbedModel, Requester};
use crate::guess::{playable, GuessSession, GuessState};
use crate::text::parsed_i32;

verus! {

/// Picks one of `items` at random. Wraps `rand::seq::SliceRandom::choose`
/// on the thread's generator: none of an empty slice, else one of its
/// items; nothing is said of which.
#[verifier::external_body]
pub(crate) fn pick_one<T>(items: &[T]) -> (r: Option<&T>)
    ensures
        match r {
            Some(item) => items@.contains(*item),
            None => items@.len() == 0,
        },
{
    items.choose(&mut rand::thread_rng())
}

/// What the eight-ball can say, in order.
pub open spec fn answer_list() -> Seq<&'static str> {
    seq![
        "Yes",
        "No",
        "It is likely",
        "Try again later",
        "I cannot predict that now",
        "Most definitely not",
        "Outlook good",
        "Cannot say for sure",
        "Chances are slim",
        "Maybe",
        "Better not tell you now",
        "My sources say no",
        "Without a doubt",
        "Don't count on it",
        "Very doubtful",
        "Signs point to yes",
        "Ask again later",
        "My reply is no",
        "As I see it, yes",
        "Reply hazy, try again",
        "Cannot predict now",
        "Concentrate and ask again",
        "All signs point to yes",
        "The outlook is not so good",
        "Definitely",
        "Definitely not",
        "I'm sorry, I didn't understand the question",
        "Ask someone else",
        "My sources say yes",
        "It's not looking good",
        "I'm feeling uncertain about this one",
        "Yes, without a doubt",
        "Don't get your hopes up",
        "My answer is yes, but with caution",
        "I cannot give you a clear answer at this time",
        "The stars are not aligned in your favor",
        "It's a possibility, but not a strong one",
        "Trust your instincts",
        "nah",
        "hell nah",
        "hell yeah",
        "yeah",
        "why not",
        "I ain't telling",
    ]
}

/// What the eight-ball can say.
pub fn eightball_answers() -> (r: Vec<&'static str>)
    ensures
        r@ == answer_list(),
{
    vec![
        "Yes",
        "No",
        "It is likely",
        "Try again later",
        "I cannot predict that now",
        "Most definitely not",
        "Outlook good",
        "Cannot say for sure",
        "Chances are slim",
        "Maybe",
        "Better not tell you now",
        "My sources say no",
        "Without a doubt",
        "Don't count on it",
        "Very doubtful",
        "Signs point to yes",
        "Ask again later",
        "My reply is no",
        "As I see it, yes",
        "Reply hazy, try again",
        "Cannot predict now",
        "Concentrate and ask again",
        "All signs point to yes",
        "The outlook is not so good",
        "Definitely",
        "Definitely not",
        "I'm sorry, I didn't understand the question",
        "Ask someone else",
        "My sources say yes",
        "It's not looking good",
        "I'm feeling uncertain about this one",
        "Yes, without a doubt",
        "Don't get your hopes up",
        "My answer is yes, but with caution",
        "I cannot give you a clear answer at this time",
        "The stars are not aligned in your favor",
        "It's a possibility, but not a strong one",
        "Trust your instincts",
        "nah",
        "hell nah",
        "hell yeah",
        "yeah",
        "why not",
        "I ain't telling",
    ]
}

/// The card that answers `question` with `answer`.
pub open spec fn eightball_card(question: Seq<char>, answer: Seq<char>, requester: Requester) -> EmbedModel {
    blank("8-Ball Response"@, card_color()).with_field(
        "Your Question :speaking_head:"@,
        question,
        false,
    ).with_field("8-Ball Says :8ball:"@, answer, false).signed(
        "Command Requested by: "@ + requester.name@,
        requester.face@,
    )
}

/// Builds the card that answers `question` with `answer`.
pub fn eightball_reply(question: &str, answer: &str, requester: &Requester) -> (r: Embed)
    ensures
        r@ == eightball_card(question@, answer@, *requester),
{
    let mut card = Embed::new("8-Ball Response");
    card.field("Your Question :speaking_head:", question, false);
    card.field("8-Ball Says :8ball:", answer, false);
    let footer = credit("Command Requested by: ", requester.name.as_str());
    card.sign(footer.as_str(), requester.face.as_str());
    card
}

/// What the eight-ball says where no question was asked.
pub open spec fn no_question_text() -> Seq<char> {
    "Invalid input. Usage: `prefix 8ball <question>`"@
}

/// The `eightball` command: the first argument is the question, and the
/// answer is one of the eight-ball's answers, picked at random. Where no
/// question was asked the caller is told how to ask.
pub fn eightball(args: &mut Args, requester: &Requester) -> (r: Result<Embed, String>)
    ensures
        match next_argument(old(args).remaining(), old(args).quoting()) {
            Some((question, after)) => if question.len() == 0 {
                r.is_err() && r.unwrap_err()@ == no_question_text()
            } else {
                r.is_ok() && exists|i: int|
                    0 <= i < answer_list().len() && r.unwrap()@ == eightball_card(
                        question,
                        (#[trigger] answer_list()[i])@,
                        *requester,
                    )
            },
            None => r.is_err() && r.unwrap_err()@ == no_question_text(),
        },
{
    let question = match args.single() {
        Some(question) => question,
        None => String::new(),
    };
    if question.as_str().is_empty() {
        return Err(String::from_str("Invalid input. Usage: `prefix 8ball <question>`"));
    }
    let answers = eightball_answers();
    let picked = pick_one(answers.as_slice());
    proof {
        assert(answer_list().len() == 44);
    }
    let answer: &str = match picked {
        Some(answer) => {
            proof {
                let i = choose|i: int| 0 <= i < answers@.len() && answers@[i] == *answer;
                assert(answer_list()[i]@ == answer@);
            }
            answer
        },
        None => answers[0],
    };
    Ok(eightball_reply(question.as_str(), answer, requester))
}

/// The number read from the front of `remaining` and what is left after
/// it; where the next argument is no number, nothing is read.
pub open spec fn read_i32(remaining: Seq<char>, quoting: bool) -> (Option<i32>, Seq<char>) {
    match next_argument(remaining, quoting) {
        Some((token, after)) => match parsed_i32(token) {
            Some(v) => (Some(v), after),
            None => (None, remaining),
        },
        None => (None, remaining),
    }
}

/// `v`, or zero where there is none.
pub open spec fn or_zero(v: Option<i32>) -> i32 {
    match v {
        Some(v) => v,
        None => 0,
    }
}

/// The bounds and the attempts that the arguments `remaining` ask for: three
/// numbers read in turn, each zero where it cannot be read.
pub open spec fn guess_arguments_of(remaining: Seq<char>, quoting: bool) -> (i32, i32, i32) {
    let (min, after_min) = read_i32(remaining, quoting);
    let (max, after_max) = read_i32(after_min, quoting);
    let (attempts, after_attempts) = read_i32(after_max, quoting);
    (or_zero(min), or_zero(max), or_zero(attempts))
}

/// Reads the arguments of `guess`: the lower bound, the upper bound and the
/// number of attempts.
pub fn guess_arguments(args: &mut Args) -> (r: (i32, i32, i32))
    ensures
        r == guess_arguments_of(old(args).remaining(), old(args).quoting()),
{
    let min = match args.single_i32() {
        Ok(v) => v,
        Err(_) => 0,
    };
    let max = match args.single_i32() {
        Ok(v) => v,
        Err(_) => 0,
    };
    let attempts = match args.single_i32() {
        Ok(v) => v,
        Err(_) => 0,
    };
    (min, max, attempts)
}

/// The `guess` command: starts a game for the bounds and attempts that the
/// arguments ask for, with a secret drawn at random within the bounds.
/// There is a game exactly where the lower bound is below the upper one and
/// there is at least one attempt.
pub fn guess(args: &mut Args, user_id: u64, channel_id: u64) -> (r: Option<GuessSession>)
    ensures
        ({
            let (min, max, attempts) = guess_arguments_of(old(args).remaining(), old(args).quoting());
            &&& r.is_some() <==> playable(min, max, attempts)
            &&& r matches Some(s) ==> s.wf() && s == (GuessSession {
                min,
                max,
                attempts,
                secret: s.secret,
                state: GuessState::AwaitingGuess { attempts_remaining: attempts },
                user_id,
                channel_id,
            })
        }),
{
    let (min, max, attempts) = guess_arguments(args);
    GuessSession::start(min, max, attempts, user_id, channel_id)
}

} // verus!
