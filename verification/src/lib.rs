//! A verified core for a video player.

pub mod gpui_video;
pub mod player_app;
pub mod player_core;
pub mod text;
pub mod time;
