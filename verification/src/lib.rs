//! Core logic of a two-player Rock, Paper, Scissors duel bot:
//! the duel state machine, the Elo-style rating engine, the ranked
//! per-community rating store, and the dirty-flag persistence gate.
//!
//! Everything here is pure logic over plain values; the chat transport,
//! the directory lookups and the on-disk format live outside this crate
//! and talk to it through the session event interface.

pub mod config;
pub mod data;
pub mod game;
pub mod kv;
pub mod leaderboard;
pub mod pair;
pub mod roster;
pub mod score;
pub mod selection;
pub mod session;
