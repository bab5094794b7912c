[package]
name = "spdk_rs"
version = "0.1.0"
edition = "2021"
publish = false

[dependencies]
nix = "*"
futures = "*"
serde = { version = "1", features = ["derive"] }
serde_json = "1"
snafu = "*"
tracing = "*"
