[package]
name = "wyrmhole_core"
version = "0.1.0"
edition = "2021"
publish = false

[dependencies]
chrono = "*"
flate2 = "*"
futures = "*"
magic-wormhole = "*"
serde = { version = "*", features = ["derive"] }
serde_json = "*"
tar = "*"
tokio = { version = "*", features = ["sync", "rt", "fs", "macros", "rt-multi-thread"] }
tokio-util = { version = "*", features = ["compat"] }
uuid = { version = "*", features = ["v4"] }
