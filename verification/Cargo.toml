[package]
name = "substratheus"
version = "0.1.0"
edition = "2021"
publish = false

[dependencies]
base58 = "*"
blake2 = "*"
subxt = "*"
scale-decode = "*"
tokio = { version = "*", features = ["macros", "rt-multi-thread", "time", "net", "sync", "io-util"] }
serde = { version = "*", features = ["derive"] }
serde_yaml = "*"
clap = { version = "*", features = ["derive"] }
