//! A multi-user speedrun timer service: a concurrent registry of per-user
//! timers, a shared race state machine with a synchronized start, and a pure
//! projection of a user's timer into a renderable layout.

pub mod text;
pub mod timing;
pub mod layout;
pub mod race;
pub mod store;
pub mod laws;
pub mod bingo;
