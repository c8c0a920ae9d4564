//! Generation of Rubik's-cube scramble sequences.
//!
//! A scramble is a sequence of face turns in which no move repeats or
//! cancels the face of the move before it, and no move completes an
//! opposite-face pattern with the two moves before it.

pub mod scramblegeneration;
mod rng;
