//! Rules engine for a four-player, dice-driven marble race game played on a
//! shared cyclic track with per-player home lanes and a central shortcut cell.
//!
//! The engine decides which moves are legal for the player on turn, executes a
//! chosen move, resolves captures, drives the power-up economy, and sequences
//! turns through an explicit phase state machine until a winner is found.

pub mod board;
pub mod dice;
pub mod engine;
pub mod generator;
pub mod marble;
pub mod moves;
pub mod power;
pub mod rng;
