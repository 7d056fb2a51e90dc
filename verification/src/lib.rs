//! An interactive front-end core for a two-player 8x8 board game.
//!
//! The rules of the game live in an external engine; this crate verifies the
//! logic wrapped around it: mapping pixel coordinates to board squares, a
//! click-driven move-selection state machine, partitioning legal moves into
//! quiet and capture highlight targets, a non-empty history of position
//! snapshots, and a depth-bounded game-tree leaf counter (perft) used as a
//! correctness oracle for the engine.

pub mod board;
pub mod coords;
pub mod highlight;
pub mod perft;
pub mod controller;
pub mod engine;
pub mod game;
