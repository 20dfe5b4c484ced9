[package]
name = "tab_core"
version = "0.1.0"
edition = "2021"
publish = false

[dependencies]
anyhow = "1"
futures = "0.3"
lifeline = "*"
log = "0.4"
serde = { version = "1", features = ["derive"] }
simplelog = "*"
snailquote = "*"
thiserror = "*"
tokio = { version = "1", features = ["rt-multi-thread", "macros", "sync", "time", "net"] }
tungstenite = "*"
