//! Spaced-repetition scheduling for flashcards, with the note format that the
//! cards are written in.
//!
//! Durations and multipliers are fixed-point numbers in millionths, instants
//! are whole seconds and nanoseconds since the Unix epoch, and every public
//! function carries a contract that states its result exactly.

pub mod card;
pub mod context;
pub mod deck;
pub mod fields;
pub mod fixed;
pub mod instant;
pub mod note;
pub mod pattern;
pub mod review;
pub mod text;
