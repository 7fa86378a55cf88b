[package]
name = "music_player"
version = "0.1.0"
edition = "2021"
publish = false

[dependencies]
clap = { version = "4", features = ["derive"] }
libc = "0.2"
rdev = "0.5"
rodio = "0.19"
serde = { version = "1", features = ["derive"] }
serde_json = "1"
