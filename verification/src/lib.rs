//! Judgment and pattern recognition for a four-lane rhythm game.
//!
//! Times are whole microseconds measured from the start of the song, and
//! tempos are whole thousandths of a beat per minute, so every timing
//! window is decided in exact integer arithmetic.

pub mod config;
pub mod constants;
pub mod events;
pub mod home_menu;
pub mod note;
pub mod receptor;
pub mod score;
pub mod song_list;
pub mod systems;
pub mod tally;
pub mod timer;
