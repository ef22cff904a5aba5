use guessing_game::guess::Guess;
use guessing_game::response::{respond, GameOutcome, Tint, Verdict};

#[test]
fn construction() {
    Guess::new(0_i32, 0, 0).expect("guess 1 failed to construct.");
    Guess::new(0_i32, 0, 1).expect("guess 2 failed to construct.");
    Guess::new(1_i32, 0, 0).expect_err("guess 3 failed to fail to construct.");

    Guess::new(0_i32, 0, 10).expect("guess 4 failed to construct.");
    Guess::new(5_i32, 0, 10).expect("guess 5 failed to construct.");
    Guess::new(10_i32, 0, 10).expect("guess 6 failed to construct.");

    Guess::new(0_i32, 10, 20).expect_err("guess 7 failed to fail to construct.");
    Guess::new(10_i32, 10, 20).expect("guess 8 failed to construct.");
    Guess::new(15_i32, 10, 20).expect("guess 9 failed to construct.");
    Guess::new(20_i32, 10, 20).expect("guess 10 failed to construct.");

    Guess::new(-0_i32, 0, 10000).expect("guess 11 failed to construct.");
    Guess::new(-5_i32, 0, 10000).expect_err("guess 12 failed to construct.");
    Guess::new(-10_i32, 0, 10000).expect_err("guess 13 failed to construct.");
}

#[test]
fn equality() {
    assert_eq!(
        Guess::new(0_i32, 0, 10).expect("guess 1 failed to construct."),
        Guess::new(0_i32, 0, 10).expect("guess 2 failed to construct.")
    );
    assert_eq!(
        Guess::new(10_i32, 0, 20).expect("guess 3 failed to construct."),
        Guess::new(10_i32, 0, 20).expect("guess 4 failed to construct.")
    );
    assert_eq!(
        Guess::new(50_i32, 0, 50).expect("guess 5 failed to construct."),
        Guess::new(50_i32, 0, 50).expect("guess 6 failed to construct.")
    );
}

#[test]
fn nequality() {
    assert_ne!(
        Guess::new(5_i32, 0, 10).expect("guess 1 failed to construct."),
        Guess::new(0_i32, 0, 10).expect("guess 2 failed to construct.")
    );
    assert_ne!(
        Guess::new(10_i32, 0, 20).expect("guess 3 failed to construct."),
        Guess::new(15_i32, 0, 20).expect("guess 4 failed to construct.")
    );
    assert_ne!(
        Guess::new(50_i32, 0, 50).expect("guess 5 failed to construct."),
        Guess::new(0_i32, 0, 50).expect("guess 6 failed to construct.")
    );
}

#[test]
fn respond_test() {
    let guess = Guess::new(40, 0, 50).expect("guess 1 failed to construct.");
    let correct = Guess::new(40, 0, 50).expect("guess 2 failed to construct.");
    assert_eq!(respond(guess, correct).outcome, GameOutcome::Stop);

    let guess = Guess::new(20, 0, 50).expect("guess 3 failed to construct.");
    let correct = Guess::new(40, 0, 50).expect("guess 4 failed to construct.");
    assert_eq!(respond(guess, correct).outcome, GameOutcome::Continue);

    let guess = Guess::new(40, 0, 50).expect("guess 5 failed to construct.");
    let correct = Guess::new(20, 0, 50).expect("guess 6 failed to construct.");
    assert_eq!(respond(guess, correct).outcome, GameOutcome::Continue);
}

#[test]
fn accepts_value_at_low_end() {
    let g = Guess::new(0, 0, 10).expect("in range");
    assert_eq!(g.value(), 0);
    assert_eq!(g.low(), 0);
    assert_eq!(g.high(), 10);
}

#[test]
fn rejects_value_below_range_with_that_value() {
    assert_eq!(Guess::new(0, 10, 20), Err(0));
}

#[test]
fn range_ends_accepted_and_neighbours_rejected() {
    assert!(Guess::new(-3, -3, 7).is_ok());
    assert!(Guess::new(7, -3, 7).is_ok());
    assert_eq!(Guess::new(-4, -3, 7), Err(-4));
    assert_eq!(Guess::new(8, -3, 7), Err(8));
    assert!(Guess::new(i32::MIN, i32::MIN, i32::MAX).is_ok());
    assert!(Guess::new(i32::MAX, i32::MIN, i32::MAX).is_ok());
}

#[test]
fn empty_range_rejects_everything() {
    assert_eq!(Guess::new(5, 6, 5), Err(5));
    assert_eq!(Guess::new(6, 6, 5), Err(6));
}

#[test]
fn equal_guess_wins_and_stops() {
    let guess = Guess::new(40, 0, 50).unwrap();
    let secret = Guess::new(40, 0, 50).unwrap();
    let r = respond(guess, secret);
    assert_eq!(r.verdict, Verdict::Win);
    assert_eq!(r.outcome, GameOutcome::Stop);
    assert!(r.verdict.message().contains("win"));
}

#[test]
fn lower_guess_is_too_low_and_continues() {
    let guess = Guess::new(20, 0, 50).unwrap();
    let secret = Guess::new(40, 0, 50).unwrap();
    let r = respond(guess, secret);
    assert_eq!(r.verdict, Verdict::TooLow);
    assert_eq!(r.outcome, GameOutcome::Continue);
    assert!(r.verdict.message().to_lowercase().contains("too low"));
}

#[test]
fn higher_guess_is_too_high_and_continues() {
    let guess = Guess::new(41, 0, 50).unwrap();
    let secret = Guess::new(40, 0, 50).unwrap();
    let r = respond(guess, secret);
    assert_eq!(r.verdict, Verdict::TooHigh);
    assert_eq!(r.outcome, GameOutcome::Continue);
    assert!(r.verdict.message().to_lowercase().contains("too high"));
}

#[test]
fn verdict_outcomes_and_messages() {
    assert_eq!(Verdict::Win.outcome(), GameOutcome::Stop);
    assert_eq!(Verdict::TooHigh.outcome(), GameOutcome::Continue);
    assert_eq!(Verdict::TooLow.outcome(), GameOutcome::Continue);
    assert_eq!(Verdict::TooHigh.message(), "\nToo high! 🥵");
    assert_eq!(Verdict::TooLow.message(), "\nToo low! 🥶");
    assert_eq!(Verdict::Win.message(), "\nYou win! 😊🏖");
}

#[test]
fn verdict_tints() {
    assert_eq!(Verdict::TooHigh.tint(), Tint::Magenta);
    assert_eq!(Verdict::TooLow.tint(), Tint::Cyan);
    assert_eq!(Verdict::Win.tint(), Tint::BoldGreen);
}
