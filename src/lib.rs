//! A number-guessing game: bounded guesses, a three-way response step, the
//! parsing of typed guesses and the attempt-counting game state.

pub mod guess;
pub mod response;
pub mod parse;
pub mod game;
