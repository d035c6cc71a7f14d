//! A player without its window: the controller, the clock that times the pictures, the loop that
//! feeds them, and what the controls show.

pub mod clock_laws;
pub mod control_laws;
pub mod controller;
pub mod controls;
pub mod count_laws;
pub mod decode;
pub mod i18n;
pub mod playback_clock;
pub mod player;
pub mod stats;
pub mod stats_laws;
