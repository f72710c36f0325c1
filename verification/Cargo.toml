[package]
name = "short"
version = "0.1.0"
edition = "2021"
publish = false

[dependencies]
chrono = "=0.4.45"
uuid = { version = "=1.27.0", features = ["v4", "serde"] }
serde = { version = "1", features = ["derive"] }
tide = "=0.16.0"
async-std = { version = "1", features = ["attributes"] }
