//! Core of a terminal word-guessing game: a player has six attempts to
//! find a secret five-letter word, and after every submitted guess each
//! letter is marked as correct, present-but-misplaced, or absent.
//!
//! This crate holds the verified game logic: the guess evaluator, the
//! game state machine, the allow-list handling, and the shareable
//! result-summary formatting. Terminal rendering, key-event decoding,
//! clipboard access and file persistence are left to the surrounding
//! program, which drives this library with plain values.

pub mod data;
pub mod evaluate;
pub mod game;
pub mod letters;
pub mod status;
pub mod summary;
pub mod words;
