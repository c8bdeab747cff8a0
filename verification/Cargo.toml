[package]
name = "rkllm_shell"
version = "0.1.0"
edition = "2021"
publish = false

[dependencies]
axum = "*"
chrono = { version = "*", features = ["serde"] }
clap = { version = "*", features = ["derive"] }
config = "*"
log = "*"
serde = { version = "*", features = ["derive"] }
serde_json = "*"
tokio = { version = "*", features = ["rt-multi-thread", "macros", "signal", "net"] }
