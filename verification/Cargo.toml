[package]
name = "imgcompress"
version = "0.1.0"
edition = "2021"
publish = false

[dependencies]
image = { version = "0.25", default-features = false, features = ["png", "jpeg", "webp"] }
oxipng = { version = "9", default-features = false, features = ["parallel"] }
mozjpeg = { version = "0.10", default-features = false }
webp = { version = "0.3", default-features = false }
serenity = { version = "0.12", default-features = false, features = ["client", "gateway", "rustls_backend", "model"] }
shuttle-runtime = "*"
shuttle-serenity = "*"
anyhow = "1"
tracing = "0.1"
tokio = "1"
