[package]
name = "hypridle_audio_listener"
version = "0.1.0"
edition = "2021"
publish = false

[dependencies]
clap = { version = "4", features = ["derive"] }
clap_derive = "4"
config = { version = "0.14", default-features = false, features = ["toml"] }
dirs-next = "2"
once_cell = "1"
serde = { version = "1", features = ["derive"] }
serde_json = "1"
tokio = { version = "1", features = ["macros", "rt-multi-thread", "time"] }
which = "*"
