[package]
name = "codec_bench"
version = "0.1.0"
edition = "2021"
publish = false

[dependencies]
brotli2 = "0.3"
fake = "2.10"
flate2 = "1"
rayon = "1"
serde = { version = "1", features = ["derive"] }
serde_json = "1"
