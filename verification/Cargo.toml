[package]
name = "m1necraft"
version = "0.1.0"
edition = "2021"
publish = false

[dependencies]
serde_json = "1"
chrono = "0.4"
serde = { version = "1", features = ["derive"] }
tokio = { version = "1", features = ["rt-multi-thread", "macros"] }
reqwest = { version = "0.12", default-features = false }
unzpack = "*"
fs_extra = "1"
dirs = "*"
glob = "0.3"
once_cell = "1"
