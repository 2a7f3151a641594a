[package]
name = "codec_bench"
version = "0.1.0"
edition = "2021"
publish = false

[dependencies]
anyhow = "1"
chrono = "0.4"
clap = { version = "4", features = ["derive"] }
csv = "1"
flate2 = "1"
lz4 = "1"
rand = "0.8"
snap = "1"
zstd = "0.13"
