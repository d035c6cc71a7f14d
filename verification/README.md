# aa-player

A video player. The library under `src/` holds what the player decides, with contracts that Verus
proves; the program under `app/` does what only the outside can do: it reads files, decodes, plays
sound and draws windows.

- `src/time.rs`, `src/text.rs`: spans and points of time, and numbers as text.
- `src/player_core/`: frames, the order of packets and decoders, resampling, the queue of the sound
  card and its clock, the routing of log messages.
- `src/gpui_video/`: the player with controls: its commands, the loop that decodes, the clock that
  times the pictures, statistics, and the texts of the window.
- `src/player_app/`: a plain window without controls, its thread and its statistics.
- `app/`: ffmpeg, cpal and GPUI around the library.

The library calls no media decoder and no device. Where it needs one it hands out a request
(`player_core::media_source::Request`, `gpui_video::decode::Step`, `gpui_video::decode::Effect`),
and takes the answer as an argument of the next call. The one file that it decodes itself is the
icon of the window (`player_app::render_image::load_window_icon`), with the `image` crate.

What depends on the current time comes in two forms. `schedule_at`, `record_displayed_at` and
`seek_preview_at` take the reading as an argument; `schedule`, `record_displayed` and
`seek_preview` read the watch that they hold and do the same. Only `time::Stopwatch` asks the
operating system.

What holds over any sequence of calls stands in files of its own: `player_core/reads.rs` for reads
and seeks, `gpui_video/decode/runs.rs` for the rounds of the loop, and the two `stats_laws.rs` for
the statistics.

Floating point does not occur in the library. A speed is a whole number of steps of which 2^54 make
normal speed, and so stands for any double of the playable range; a volume is the bits of a single;
frame rates and the filled part of the slider are fractions; samples are a type parameter. A reading
of the sound card's clock (`player_core::audio_output::AudioClock`) is a value: whoever keeps one
takes in a new one (`AudioClockSource::refresh`) before going by it.
