[package]
name = "form_relay"
version = "0.1.0"
edition = "2021"
publish = false

[dependencies]
axum = "=0.8.9"
env_logger = "=0.11.11"
log = "*"
reqwest = { version = "=0.13.5", default-features = false, features = ["form"] }
serde = { version = "*", features = ["derive"] }
tokio = { version = "=1.53.2", features = ["rt-multi-thread", "macros", "net"] }
tower-http = { version = "=0.7.1", features = ["cors"] }
