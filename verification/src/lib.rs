//! Core simulation engine for a falling-block puzzle game: board state,
//! tetromino geometry, movement and collision rules, SRS-style rotation with
//! wall kicks, line clearing with gravity compaction, and the key-repeat
//! state machine that turns raw key signals into discrete game actions.
//!
//! Presentation concerns (windowing, drawing, reading the real keyboard) are
//! left to the embedding application; the engine consumes plain per-tick
//! input snapshots and exposes its state through read-only accessors.

pub mod tetromino;
pub mod rotations;
pub mod input;
pub mod universe;
