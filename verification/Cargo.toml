[package]
name = "mining"
version = "0.1.0"
edition = "2021"
publish = false

[dependencies]
tiny-keccak = { version = "2.0", features = ["keccak"] }
alloy-sol-types = "=0.7.7"
rand = "0.8.5"
serde = { version = "1", features = ["derive"] }
bincode = "1.3.3"
anyhow = "1"
tracing = "0.1"
tracing-subscriber = { version = "0.3", features = ["env-filter"] }
dotenv = "0.15"
lazy_static = "1.4"
tokio = { version = "1", features = ["full"] }
rocket = { version = "0.5", features = ["json"] }
rocket_cors = "0.6"
