use crate::guess::{in_range, Guess, GuessView};
use crate::parse::{guess_result, parse_guess, trimmed, GuessError};
use crate::response::{respond, verdict_of, GameOutcome, Response, Verdict};
use rand::Rng;
use vstd::prelude::*;

verus! {

/// Where a game stands: still being played, or over by a win or a loss.
#[derive(Debug, Clone, Copy, PartialEq, Eq, Structural)]
pub enum Status {
    Playing,
    Won,
    Lost,
}

/// What one line of player input led to.
#[derive(Debug, Clone, Copy, PartialEq, Eq, Structural)]
pub enum Reply {
    /// The line was not a valid guess; nothing was counted.
    Invalid(GuessError),
    /// The line was a valid guess, and this is the response to it.
    Judged(Response),
}

/// The mathematical value of a game.
pub ghost struct GameView {
    pub secret: GuessView,
    pub attempts_left: nat,
    pub status: Status,
}

/// A game in progress: the secret, the attempts still allowed and whether
/// the game is over.
#[derive(Debug, Clone, Copy, PartialEq, Eq, Structural)]
pub struct Game {
    secret: Guess,
    attempts_left: u32,
    status: Status,
}

impl View for Game {
    type V = GameView;

    closed spec fn view(&self) -> GameView {
        GameView {
            secret: self.secret@,
            attempts_left: self.attempts_left as nat,
            status: self.status,
        }
    }
}

/// The state a game starts in, with `attempts` guesses allowed.
pub open spec fn initial(secret: GuessView, attempts: nat) -> GameView {
    GameView {
        secret,
        attempts_left: attempts,
        status: if attempts == 0 {
            Status::Lost
        } else {
            Status::Playing
        },
    }
}

/// The state after a valid guess of `value`: one attempt is used, and the
/// game is won on the secret, lost when no attempt is left, and goes on
/// otherwise.
pub open spec fn after_guess(g: GameView, value: int) -> GameView {
    let left = (g.attempts_left - 1) as nat;
    GameView {
        secret: g.secret,
        attempts_left: left,
        status: if verdict_of(value, g.secret.value) is Win {
            Status::Won
        } else if left == 0 {
            Status::Lost
        } else {
            Status::Playing
        },
    }
}

/// The state after one line of input: an invalid line changes nothing.
pub open spec fn after_input(g: GameView, text: Seq<char>) -> GameView {
    match guess_result(trimmed(text), g.secret.low, g.secret.high) {
        Ok(v) => after_guess(g, v.value),
        Err(_) => g,
    }
}

/// The state after the lines of `texts`, entered in order.
pub open spec fn after_inputs(g: GameView, texts: Seq<Seq<char>>) -> GameView
    decreases texts.len(),
{
    if texts.len() == 0 {
        g
    } else {
        after_input(after_inputs(g, texts.drop_last()), texts.last())
    }
}

/// The state after the valid guesses of `values`, played in order.
pub open spec fn after_guesses(g: GameView, values: Seq<int>) -> GameView
    decreases values.len(),
{
    if values.len() == 0 {
        g
    } else {
        after_guess(after_guesses(g, values.drop_last()), values.last())
    }
}

/// Whether `text` is a line that does not give a guess in the game's range.
pub open spec fn is_invalid_input(g: GameView, text: Seq<char>) -> bool {
    guess_result(trimmed(text), g.secret.low, g.secret.high) is Err
}

/// Relies on `rand::thread_rng` and `Rng::gen_range`: a value drawn from
/// the inclusive range `[low, high]`, which must not be empty.
#[verifier::external_body]
fn draw_in(low: i32, high: i32) -> (r: i32)
    requires
        low <= high,
    ensures
        in_range(r as int, low as int, high as int),
{
    rand::thread_rng().gen_range(low..=high)
}

impl Game {
    #[verifier::type_invariant]
    spec fn inv(self) -> bool {
        self.status is Playing ==> self.attempts_left > 0
    }

    /// A game against a given secret, with `attempts` guesses allowed. With
    /// no attempt allowed the game is lost from the start.
    pub fn new(secret: Guess, attempts: u32) -> (r: Game)
        ensures
            r@ == initial(secret@, attempts as nat),
    {
        let status = if attempts == 0 {
            Status::Lost
        } else {
            Status::Playing
        };
        Game { secret, attempts_left: attempts, status }
    }

    /// A game whose secret is drawn at random from `[low, high]`.
    pub fn start(low: i32, high: i32, attempts: u32) -> (r: Game)
        requires
            low <= high,
        ensures
            r@ == initial(r@.secret, attempts as nat),
            r@.secret.low == low,
            r@.secret.high == high,
            in_range(r@.secret.value, low as int, high as int),
    {
        let drawn = draw_in(low, high);
        Game::new(Guess::new(drawn, low, high).unwrap(), attempts)
    }

    /// Plays one valid guess: it is compared with the secret, one attempt is
    /// used, and the game ends on a win or when no attempt is left.
    pub fn play(&mut self, guess: Guess) -> (r: Response)
        requires
            old(self)@.status is Playing,
            guess@.low == old(self)@.secret.low,
            guess@.high == old(self)@.secret.high,
        ensures
            final(self)@ == after_guess(old(self)@, guess@.value),
            r.verdict == verdict_of(guess@.value, old(self)@.secret.value),
            r.outcome is Stop <==> r.verdict is Win,
    {
        proof {
            use_type_invariant(&*self);
        }
        let response = respond(guess, self.secret);
        let left = self.attempts_left - 1;
        let status = match response.outcome {
            GameOutcome::Stop => Status::Won,
            GameOutcome::Continue => if left == 0 {
                Status::Lost
            } else {
                Status::Playing
            },
        };
        *self = Game { secret: self.secret, attempts_left: left, status };
        response
    }

    /// Takes one line of player input. A line that is not a valid guess is
    /// reported and leaves the game as it was; a valid one is played.
    pub fn enter(&mut self, text: &str) -> (r: Reply)
        requires
            old(self)@.status is Playing,
        ensures
            final(self)@ == after_input(old(self)@, text@),
            match guess_result(trimmed(text@), old(self)@.secret.low, old(self)@.secret.high) {
                Ok(v) => r matches Reply::Judged(resp) && resp.verdict == verdict_of(
                    v.value,
                    old(self)@.secret.value,
                ),
                Err(e) => r == Reply::Invalid(e),
            },
    {
        let low = self.secret.low();
        let high = self.secret.high();
        match parse_guess(text, low, high) {
            Ok(guess) => Reply::Judged(self.play(guess)),
            Err(e) => Reply::Invalid(e),
        }
    }

    /// Where the game stands.
    pub fn status(&self) -> (r: Status)
        ensures
            r == self@.status,
    {
        self.status
    }

    /// How many guesses are still allowed.
    pub fn attempts_left(&self) -> (r: u32)
        ensures
            r as nat == self@.attempts_left,
            self@.status is Playing ==> r > 0,
    {
        proof {
            use_type_invariant(self);
        }
        self.attempts_left
    }

    /// The secret the guesses are compared with.
    pub fn secret(&self) -> (r: Guess)
        ensures
            r@ == self@.secret,
    {
        self.secret
    }

    /// Whether the game is won or lost.
    pub fn is_over(&self) -> (r: bool)
        ensures
            r <==> !(self@.status is Playing),
    {
        !matches!(self.status, Status::Playing)
    }
}

/// Invalid input is never counted: however many lines that are not valid
/// guesses are entered, the game, and so its attempt count, stays as it was.
pub proof fn lemma_invalid_inputs_change_nothing(g: GameView, texts: Seq<Seq<char>>)
    requires
        forall|i: int| 0 <= i < texts.len() ==> is_invalid_input(g, #[trigger] texts[i]),
    ensures
        after_inputs(g, texts) == g,
    decreases texts.len(),
{
    if texts.len() > 0 {
        let rest = texts.drop_last();
        assert forall|i: int| 0 <= i < rest.len() implies is_invalid_input(g, #[trigger] rest[i]) by {
            assert(rest[i] == texts[i]);
        }
        lemma_invalid_inputs_change_nothing(g, rest);
        assert(is_invalid_input(g, texts[texts.len() - 1]));
    }
}

/// One round of the input loop uses exactly one attempt: invalid lines
/// followed by one valid guess of `value` leave the game as that one guess
/// alone would.
pub proof fn lemma_one_attempt_per_valid_guess(g: GameView, texts: Seq<Seq<char>>, value: int)
    requires
        texts.len() > 0,
        forall|i: int| 0 <= i < texts.len() - 1 ==> is_invalid_input(g, #[trigger] texts[i]),
        guess_result(trimmed(texts.last()), g.secret.low, g.secret.high) matches Ok(v) && v.value
            == value,
    ensures
        after_inputs(g, texts) == after_guess(g, value),
        after_inputs(g, texts).attempts_left == (g.attempts_left - 1) as nat,
{
    let rest = texts.drop_last();
    assert forall|i: int| 0 <= i < rest.len() implies is_invalid_input(g, #[trigger] rest[i]) by {
        assert(rest[i] == texts[i]);
    }
    lemma_invalid_inputs_change_nothing(g, rest);
}

/// A game that is never won goes on while attempts are left and is lost
/// once every allowed guess has been used.
pub proof fn lemma_lost_when_budget_used(g: GameView, values: Seq<int>)
    requires
        g.status is Playing,
        g.attempts_left > 0,
        values.len() <= g.attempts_left,
        forall|i: int| 0 <= i < values.len() ==> #[trigger] values[i] != g.secret.value,
    ensures
        after_guesses(g, values).attempts_left == g.attempts_left - values.len(),
        after_guesses(g, values).secret == g.secret,
        values.len() < g.attempts_left ==> after_guesses(g, values).status is Playing,
        values.len() == g.attempts_left ==> after_guesses(g, values).status is Lost,
    decreases values.len(),
{
    if values.len() > 0 {
        let rest = values.drop_last();
        assert forall|i: int| 0 <= i < rest.len() implies #[trigger] rest[i] != g.secret.value by {
            assert(rest[i] == values[i]);
        }
        lemma_lost_when_budget_used(g, rest);
        assert(values.last() != g.secret.value);
    }
}

} // verus!
