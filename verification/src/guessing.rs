//! A guessing game: a secret number from 1 to 100, and a verdict on each line
//! that the player enters.

use vstd::prelude::*;
use vstd::string::*;
use crate::parse::{
    is_digit, is_space, lemma_stray_character, lemma_trimmed_padded, parse_u32, read_u32, trimmed,
};
use crate::text::{decimal, holds_lines, lemma_read_back_u32, push_decimal};

verus! {

/// The smallest secret.
pub const LOWEST_SECRET: u32 = 1;

/// The largest secret.
pub const HIGHEST_SECRET: u32 = 100;

/// Draws a number with `rand::Rng::gen_range` on the generator that
/// `rand::thread_rng` hands out, over the closed range from `low` to `high`.
/// The call panics on an empty range, so `low` may not exceed `high`. Which
/// number comes back is left open: only that it lies in the range.
#[verifier::external_body]
fn random_between(low: u32, high: u32) -> (number: u32)
    requires
        low <= high,
    ensures
        low <= number <= high,
{
    rand::Rng::gen_range(&mut rand::thread_rng(), low..=high)
}

/// Picks the secret of a new game at random.
pub fn pick_secret() -> (secret: u32)
    ensures
        LOWEST_SECRET <= secret <= HIGHEST_SECRET,
{
    random_between(LOWEST_SECRET, HIGHEST_SECRET)
}

/// The verdict on one line of input. All but `Invalid` carry the number guessed.
#[derive(Clone, Copy, Debug, PartialEq, Eq, Structural)]
pub enum Verdict {
    /// The line holds no number: the player is asked again.
    Invalid,
    TooSmall(u32),
    TooBig(u32),
    /// The guess is the secret: the game is over.
    Win(u32),
}

/// The verdict that a line of input earns against a secret.
pub open spec fn judge(secret: u32, line: Seq<char>) -> Verdict {
    match parse_u32(trimmed(line)) {
        None => Verdict::Invalid,
        Some(guess) => if guess < secret {
            Verdict::TooSmall(guess)
        } else if guess > secret {
            Verdict::TooBig(guess)
        } else {
            Verdict::Win(guess)
        },
    }
}

/// Judges one line of input against the secret.
pub fn judge_guess(secret: u32, line: &str) -> (verdict: Verdict)
    ensures
        verdict == judge(secret, line@),
{
    match read_u32(line) {
        None => Verdict::Invalid,
        Some(guess) => if guess < secret {
            Verdict::TooSmall(guess)
        } else if guess > secret {
            Verdict::TooBig(guess)
        } else {
            Verdict::Win(guess)
        },
    }
}

impl Verdict {
    /// The lines that answer the player.
    pub open spec fn reply(self) -> Seq<Seq<char>> {
        match self {
            Verdict::Invalid => seq!["Please enter a valid number!"@],
            Verdict::TooSmall(guess) => seq![
                "You guessed: "@ + decimal(guess as int),
                "Too small!"@,
            ],
            Verdict::TooBig(guess) => seq!["You guessed: "@ + decimal(guess as int), "Too big!"@],
            Verdict::Win(guess) => seq!["You guessed: "@ + decimal(guess as int), "You win!"@],
        }
    }

    /// Whether the game ends with this verdict.
    pub fn ends_game(self) -> (over: bool)
        ensures
            over == (self is Win),
    {
        match self {
            Verdict::Win(_) => true,
            _ => false,
        }
    }

    /// Works out the lines that answer the player; the caller prints them.
    pub fn reply_lines(self) -> (lines: Vec<String>)
        ensures
            holds_lines(lines@, self.reply()),
    {
        let mut lines: Vec<String> = Vec::new();
        match self {
            Verdict::Invalid => {
                lines.push("Please enter a valid number!".to_owned());
            },
            Verdict::TooSmall(guess) => {
                lines.push(guessed_line(guess));
                lines.push("Too small!".to_owned());
            },
            Verdict::TooBig(guess) => {
                lines.push(guessed_line(guess));
                lines.push("Too big!".to_owned());
            },
            Verdict::Win(guess) => {
                lines.push(guessed_line(guess));
                lines.push("You win!".to_owned());
            },
        }
        lines
    }
}

/// The line that repeats the player's guess.
pub fn guessed_line(guess: u32) -> (line: String)
    ensures
        line@ == "You guessed: "@ + decimal(guess as int),
{
    let mut line = "You guessed: ".to_owned();
    push_decimal(&mut line, guess as i64);
    line
}

/// How a number that was guessed stands against the secret.
pub open spec fn compare(secret: u32, guess: u32) -> Verdict {
    if guess < secret {
        Verdict::TooSmall(guess)
    } else if guess > secret {
        Verdict::TooBig(guess)
    } else {
        Verdict::Win(guess)
    }
}

/// A number entered in decimal, with any white space around it, is judged as
/// that number: the game is won exactly where it is the secret.
pub proof fn lemma_number_is_judged(secret: u32, guess: u32, before: Seq<char>, after: Seq<char>)
    requires
        forall|i: int| 0 <= i < before.len() ==> is_space(#[trigger] before[i]),
        forall|i: int| 0 <= i < after.len() ==> is_space(#[trigger] after[i]),
    ensures
        judge(secret, before + decimal(guess as int) + after) == compare(secret, guess),
        judge(secret, before + decimal(guess as int) + after) is Win <==> guess == secret,
{
    lemma_read_back_u32(guess, before, after);
}

/// A line that holds, once trimmed, a character that is neither a digit nor
/// a sign in front is answered by asking again, whatever the secret.
pub proof fn lemma_stray_character_asks_again(secret: u32, line: Seq<char>, at: int)
    requires
        0 <= at < trimmed(line).len(),
        !is_digit(trimmed(line)[at]),
        at > 0 || (trimmed(line)[0] != '+' && trimmed(line)[0] != '-'),
    ensures
        judge(secret, line) == Verdict::Invalid,
{
    lemma_stray_character(trimmed(line), at);
}

/// An empty line, or one of white space only, is answered by asking again.
pub proof fn lemma_blank_line_asks_again(secret: u32, line: Seq<char>)
    requires
        forall|i: int| 0 <= i < line.len() ==> is_space(#[trigger] line[i]),
    ensures
        judge(secret, line) == Verdict::Invalid,
{
    lemma_trimmed_padded(line, Seq::<char>::empty(), Seq::<char>::empty());
    assert(line + Seq::<char>::empty() + Seq::<char>::empty() =~= line);
}

} // verus!
