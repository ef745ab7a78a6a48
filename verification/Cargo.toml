[package]
name = "gateway"
version = "0.1.0"
edition = "2021"
publish = false

[dependencies]
axum = "=0.8.9"
base64 = "=0.23.1"
bincode = "=2.0.1"
clap = { version = "=4.6.7", features = ["derive"] }
derive_more = { version = "=2.1.1", features = ["display", "from"] }
log = "=0.4.34"
serde = { version = "=1.0.229", features = ["derive"] }
serde_json = "=1.0.154"
simple-error = "=0.3.3"
tokio = { version = "=1.54.1", features = ["rt-multi-thread", "macros", "sync", "time", "net"] }
