[package]
name = "attachment_pipeline"
version = "0.1.0"
edition = "2021"
publish = false

[dependencies]
anyhow = "1"
base64 = "0.22"
chrono = { version = "0.4", default-features = false, features = ["clock"] }
enum-iterator = "2"
gemini-rust = "*"
image = { version = "0.25", default-features = false, features = ["png", "jpeg", "bmp", "gif", "webp", "tiff", "ico", "tga", "pnm", "qoi", "hdr", "dds", "ff"] }
log = "0.4"
mime_guess = "2"
open = "5"
reqwest = { version = "0.12", default-features = false, features = ["socks"] }
rfd = { version = "*", default-features = false, features = ["xdg-portal", "tokio"] }
serde = { version = "1", features = ["derive"] }
serde_json = "1"
time = "0.3"
tokio = { version = "1", features = ["fs", "time", "rt-multi-thread"] }
