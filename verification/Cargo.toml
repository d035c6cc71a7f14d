[package]
name = "aa_player"
version = "0.1.1"
edition = "2021"
publish = false

[dependencies]
anyhow = "1"
clap = { version = "4", features = ["derive"] }
cpal = "*"
ffmpeg-next = "*"
futures = "0.3"
image = "0.25"
rfd = "*"
smallvec = "1"
tracing = "0.1"
tracing-subscriber = { version = "0.3", features = ["env-filter"] }
