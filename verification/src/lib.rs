//! Verified gameplay rules of a wrap-around space arena: spawn cadence,
//! contact resolution, damage and splitting, ship lives, and the menu flow.
//!
//! Lengths, speeds and scales are fixed-point integers in thousandths of a
//! world unit (see [`config::UNIT`]); times are whole nanoseconds. Countdown
//! timers are `bevy` timers and random draws come from `rand`, both reached
//! through the small trusted wrappers in [`clock`] and [`random`].

pub mod arena;
pub mod asteroid;
pub mod clock;
pub mod components;
pub mod config;
pub mod contact;
pub mod enums;
pub mod explosion;
pub mod guardian;
pub mod hud;
pub mod laser;
pub mod menu;
pub mod player_ship;
pub mod random;
pub mod scoring;
pub mod state;
pub mod tile_screen;
pub mod utils;
