[package]
name = "unitree_sdk2_rust"
version = "0.1.0"
edition = "2021"

[dependencies]
log = "0.4"
serde = { version = "1", features = ["derive"] }
serde-big-array = "0.5"
thiserror = "1"
