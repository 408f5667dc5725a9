//! Rules engine for a single-player, turn-based board-exploration game on a
//! fixed 8x4 grid.
//!
//! The crate has two layers:
//!
//! - [`grid`]: the read-only spatial model — cell addressing, the four wall
//!   directions per cell, a deduplicating wall-identity scheme (a wall between
//!   two adjacent cells is one shared identity), and adjacency queries.
//! - [`board`]: the turn engine — all mutable game state, the phase state
//!   machine, dice/slot assignment, wall drawing, movement, and the
//!   encounter/tile-effect resolution tables, driven through
//!   [`board::Board::handle_message`].
//!
//! The fixed gameplay tables — wall shapes by tile face and orientation, and
//! the turn-banded encounter damage tables — live in [`tables`]. Die rolls
//! come from [`rng::Rng`], a deterministic Lehmer-style generator seeded by
//! the caller, so every game is a pure function of its seed and the sequence
//! of inputs. The engine's cross-cutting guarantees are stated and proved in
//! [`laws`].

pub mod grid;
pub mod rng;
pub mod tables;
pub mod board;
pub mod laws;
