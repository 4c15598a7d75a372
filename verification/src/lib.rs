//! Core logic of a terminal music-player shell: a two-axis focus/cursor
//! navigation state machine over a non-rectangular panel grid, an older
//! linear focus-cycle model, and construction of the HTTP Basic
//! authorization value used by the credential loader.

pub mod app;
pub mod events;
pub mod cycle;
pub mod oauth;
