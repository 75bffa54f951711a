[package]
name = "rendezvous"
version = "0.1.0"
edition = "2021"
publish = false

[dependencies]
anyhow = "*"
axum = "*"
axum-extra = { version = "*", features = ["typed-header"] }
dotenv = "*"
mimalloc = "*"
rand = "*"
serde = { version = "*", features = ["derive"] }
serde_json = "*"
socketioxide = "*"
tokio = { version = "*", features = ["full"] }
tower = "*"
tower-http = { version = "*", features = ["compression-full", "decompression-full", "fs", "trace"] }
tracing = "*"
tracing-subscriber = "*"
