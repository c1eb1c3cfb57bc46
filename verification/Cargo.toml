[package]
name = "edge_connector"
version = "0.1.0"
edition = "2021"
publish = false

[dependencies]
wasmtime = "=48.0.5"
serde_json = "=1.0.151"
serde = { version = "=1.0.229", features = ["derive"] }
tokio = { version = "=1.53.2", features = ["rt", "macros", "net", "sync", "signal", "fs", "time"] }
axum = "=0.8.9"
notify-debouncer-mini = "=0.7.0"
anyhow = "=1.0.104"
