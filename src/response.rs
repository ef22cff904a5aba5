use crate::guess::Guess;
use vstd::prelude::*;

verus! {

/// How a guess compares with the secret.
#[derive(Debug, Clone, Copy, PartialEq, Eq, Structural)]
pub enum Verdict {
    TooHigh,
    TooLow,
    Win,
}

/// Whether the game goes on after a response.
#[derive(Debug, Clone, Copy, PartialEq, Eq, Structural)]
pub enum GameOutcome {
    Continue,
    Stop,
}

/// The colour a response message is shown in.
#[derive(Debug, Clone, Copy, PartialEq, Eq, Structural)]
pub enum Tint {
    Magenta,
    Cyan,
    BoldGreen,
}

/// The result of the response step: the classification of the guess and
/// whether play continues.
#[derive(Debug, Clone, Copy, PartialEq, Eq, Structural)]
pub struct Response {
    pub verdict: Verdict,
    pub outcome: GameOutcome,
}

/// The three-way classification of `guess` against `secret`.
pub open spec fn verdict_of(guess: int, secret: int) -> Verdict {
    if guess > secret {
        Verdict::TooHigh
    } else if guess < secret {
        Verdict::TooLow
    } else {
        Verdict::Win
    }
}

/// Only a win stops the game.
pub open spec fn outcome_of(v: Verdict) -> GameOutcome {
    match v {
        Verdict::Win => GameOutcome::Stop,
        _ => GameOutcome::Continue,
    }
}

impl Verdict {
    /// The outcome that follows this verdict.
    pub fn outcome(&self) -> (r: GameOutcome)
        ensures
            r == outcome_of(*self),
    {
        match self {
            Verdict::Win => GameOutcome::Stop,
            _ => GameOutcome::Continue,
        }
    }

    /// The message shown to the player for this verdict.
    pub fn message(&self) -> (r: &'static str)
        ensures
            *self is TooHigh ==> r@ == "\nToo high! 🥵"@,
            *self is TooLow ==> r@ == "\nToo low! 🥶"@,
            *self is Win ==> r@ == "\nYou win! 😊🏖"@,
    {
        match self {
            Verdict::TooHigh => "\nToo high! 🥵",
            Verdict::TooLow => "\nToo low! 🥶",
            Verdict::Win => "\nYou win! 😊🏖",
        }
    }

    /// The colour the message is shown in.
    pub fn tint(&self) -> (r: Tint)
        ensures
            *self is TooHigh ==> r is Magenta,
            *self is TooLow ==> r is Cyan,
            *self is Win ==> r is BoldGreen,
    {
        match self {
            Verdict::TooHigh => Tint::Magenta,
            Verdict::TooLow => Tint::Cyan,
            Verdict::Win => Tint::BoldGreen,
        }
    }
}

/// Compares a guess with the secret it must share a range with: a guess
/// above the secret is too high, one below is too low, and an equal one
/// wins and stops the game. Every other verdict lets the game continue.
pub fn respond(guess: Guess, correct: Guess) -> (r: Response)
    requires
        guess.same_range(correct),
    ensures
        r.verdict == verdict_of(guess@.value, correct@.value),
        r.outcome == outcome_of(r.verdict),
        r.outcome is Stop <==> guess@.value == correct@.value,
        r.verdict is TooHigh <==> guess@.value > correct@.value,
        r.verdict is TooLow <==> guess@.value < correct@.value,
{
    let g = guess.value();
    let c = correct.value();
    let verdict = if g > c {
        Verdict::TooHigh
    } else if g < c {
        Verdict::TooLow
    } else {
        Verdict::Win
    };
    Response { verdict, outcome: verdict.outcome() }
}

/// The response step is reflexive: a guess compared with itself always wins
/// and stops the game.
pub proof fn lemma_equal_guess_stops(g: Guess)
    ensures
        verdict_of(g@.value, g@.value) == Verdict::Win,
        outcome_of(verdict_of(g@.value, g@.value)) == GameOutcome::Stop,
{
}

} // verus!
