[package]
name = "postureflow"
version = "1.0.0"
edition = "2021"
publish = false

[dependencies]
serde = { version = "1", features = ["derive"] }
serde_json = "1"
toml = "0.8"
tokio = { version = "1", features = ["full"] }
zbus = "4"
clap = { version = "4", features = ["derive"] }
libc = "0.2"
futures-util = "0.3"
