[package]
name = "flight_lookup"
version = "0.1.0"
edition = "2021"
publish = false

[dependencies]
axum = "*"
bb8-redis = "*"
env_logger = "*"
log = "*"
reqwest = { version = "*", default-features = false, features = ["json"] }
serde = { version = "*", features = ["derive"] }
serde_json = "*"
tokio = { version = "*", features = ["macros", "rt-multi-thread", "net"] }
