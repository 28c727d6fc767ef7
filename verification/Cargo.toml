[package]
name = "pjsua_rust"
version = "0.1.0"
edition = "2021"
publish = false

[dependencies]
toml = { version = "=0.8.23", features = ["preserve_order"] }
serde = { version = "=1.0.229", features = ["derive"] }
thiserror = "=1.0.69"
tokio = { version = "=1.54.1", features = ["sync"] }
log = "=0.4.35"
tracing = "=0.1.44"
