//! A single-player blackjack round engine.
//!
//! The library models one round of a simplified blackjack game: dealing,
//! hitting, standing with synchronous dealer auto-play, settlement, and a
//! session-lifetime win tally. Card draws are independent uniform samples
//! over the 52 rank/suit combinations (an infinite shoe), supplied by a
//! pseudo-random number generator behind a trusted wrapper.

pub mod deck;
pub mod round;
