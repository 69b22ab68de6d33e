//! Server-side coordinator for a two-player, turn-based noughts-and-crosses
//! match played over a persistent bidirectional connection.
//!
//! The crate is organised leaves-first:
//! - [`board`]: the 3x3 grid and the pure win/draw evaluation.
//! - [`ids`]: the match identifier token and in-range cell positions.
//! - [`messages`]: the two wire message families and the closed error set.
//! - [`codec`]: the compact binary encoding of both families.
//! - [`state`]: the match state machine (join / move / rematch / leave).
//! - [`actor`]: the per-match event handler that decodes, transitions and
//!   emits encoded notifications.
//! - [`rng`]: the narrow randomness capability (coin flip, token sampling).

pub mod actor;
pub mod board;
pub mod codec;
pub mod ids;
pub mod messages;
pub mod rng;
pub mod state;
