[package]
name = "clipboard_history"
version = "0.1.0"
edition = "2021"
publish = false

[dependencies]
anyhow = "*"
clipboard-rs = "*"
serde = { version = "*", features = ["derive"] }
thiserror = "*"
tokio = { version = "*", features = ["rt", "sync"] }
tracing = "*"
tracing-subscriber = "*"
