[package]
name = "audio_capture"
version = "0.1.0"
edition = "2021"
publish = false

[dependencies]
anyhow = "*"
axum = "*"
cpal = "*"
mime_guess = "*"
reqwest = { version = "*", default-features = false, features = ["multipart", "stream"] }
tokio = { version = "*", features = ["full"] }

[dev-dependencies]
hound = "*"
