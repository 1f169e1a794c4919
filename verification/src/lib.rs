//! A falling-block puzzle engine: the seven tetrominoes, a fair randomizer,
//! rotation with wall kicks, gravity and lock timing, line clearing and
//! scoring, and the menu / playing / paused / game-over life cycle.
//!
//! Every function states its behaviour in a contract that Verus proves.
//! The engine has no clock, screen or keyboard of its own: the caller hands
//! it the time that has passed and the commands of the player, and reads
//! back the state and what happened.
//!
//! - `piece`, `rotation`, `motion`: the pieces and how they turn and move.
//! - `board`: the settled cells, full lines and their collapse.
//! - `randomizer`, `queue`: the upcoming pieces.
//! - `stats`, `timer`, `common`, `menu`: counters, countdowns and the life
//!   cycle.
//! - `game`: one session, advanced by `tick`; `model` says what a tick
//!   does, and `laws` what holds of every session.

pub mod board;
pub mod common;
pub mod game;
pub mod laws;
pub mod menu;
pub mod model;
pub mod motion;
pub mod piece;
pub mod queue;
pub mod randomizer;
pub mod rotation;
pub mod stats;
pub mod timer;
