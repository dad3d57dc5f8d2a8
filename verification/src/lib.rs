//! Realtime coordination core of a multiplayer Shuuro board-game server.
//!
//! The library holds the verified logic of the server: the per-match state
//! machine with its chess clock, the lobby that pairs players, the clock
//! ticker's cadence rule, the TV aggregator, the players registry, the
//! per-connection room router, and the session and login helpers. The
//! async runtime, the HTTP edge and the stores drive these state machines
//! from outside.
#![verifier::loop_isolation(false)]

pub mod ai;
pub mod connection;
pub mod game;
pub mod games_registry;
pub mod ids;
pub mod lobby;
pub mod login;
pub mod match_actor;
pub mod messages;
pub mod players;
pub mod requests;
pub mod roster;
pub mod session;
pub mod strutil;
pub mod ticker;
pub mod time_control;
pub mod tv;
pub mod watchers;
