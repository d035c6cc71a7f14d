//! Media without a window: demultiplexing, decoding, and the sound card.

pub mod audio_decoder;
pub mod audio_output;
pub mod ffmpeg_log;
pub mod frame;
pub mod media_source;
pub mod probe;
pub mod reads;
pub mod sound_laws;
pub mod source_laws;
