use vstd::prelude::*;

verus! {

/// Whether `v` lies in the inclusive range `[low, high]`.
pub open spec fn in_range(v: int, low: int, high: int) -> bool {
    low <= v <= high
}

/// The mathematical value of a guess: its integer and the inclusive range
/// it was validated against.
pub ghost struct GuessView {
    pub value: int,
    pub low: int,
    pub high: int,
}

/// An integer that was checked, when it was made, to lie within an inclusive
/// range. The range is kept beside the value; [`Guess::new`] is the only way
/// to obtain one.
#[derive(Debug, Clone, Copy, PartialEq, Eq, Structural)]
pub struct Guess {
    value: i32,
    low: i32,
    high: i32,
}

impl View for Guess {
    type V = GuessView;

    closed spec fn view(&self) -> GuessView {
        GuessView { value: self.value as int, low: self.low as int, high: self.high as int }
    }
}

impl Guess {
    #[verifier::type_invariant]
    spec fn inv(self) -> bool {
        in_range(self.value as int, self.low as int, self.high as int)
    }

    /// Validates `guess` against the inclusive range `[low, high]`. Out of
    /// range values are rejected, not clamped: the error carries the
    /// rejected value.
    pub fn new(guess: i32, low: i32, high: i32) -> (r: Result<Guess, i32>)
        ensures
            r is Ok <==> in_range(guess as int, low as int, high as int),
            r matches Ok(g) ==> g@ == (GuessView {
                value: guess as int,
                low: low as int,
                high: high as int,
            }),
            r matches Err(e) ==> e == guess,
    {
        if low <= guess && guess <= high {
            Ok(Guess { value: guess, low, high })
        } else {
            Err(guess)
        }
    }

    /// The validated integer.
    pub fn value(&self) -> (r: i32)
        ensures
            r as int == self@.value,
            in_range(r as int, self@.low, self@.high),
    {
        proof {
            use_type_invariant(self);
        }
        self.value
    }

    /// The lower end of the range the value was validated against.
    pub fn low(&self) -> (r: i32)
        ensures
            r as int == self@.low,
    {
        self.low
    }

    /// The upper end of the range the value was validated against.
    pub fn high(&self) -> (r: i32)
        ensures
            r as int == self@.high,
    {
        self.high
    }

    /// Whether two guesses were validated against the same range.
    pub open spec fn same_range(self, other: Guess) -> bool {
        self@.low == other@.low && self@.high == other@.high
    }
}

/// For a non-empty range, both ends are accepted and the integers just
/// outside it are rejected.
pub proof fn lemma_range_boundaries(low: int, high: int)
    requires
        low <= high,
    ensures
        in_range(low, low, high),
        in_range(high, low, high),
        !in_range(low - 1, low, high),
        !in_range(high + 1, low, high),
{
}

} // verus!
