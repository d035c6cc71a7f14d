//! A plain player window without its window: decoding straight through, a slider and three keys.

pub mod count_laws;
pub mod playback;
pub mod render_image;
pub mod stats;
pub mod stats_laws;
pub mod view;
pub mod view_laws;
