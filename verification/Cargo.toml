[package]
name = "dfc-node"
version = "0.1.0"
edition = "2021"
publish = false

[dependencies]
bollard = "=0.18.1"
bs58 = "=0.5.1"
clap = { version = "4", features = ["derive"] }
ed25519-dalek = { version = "=2.2.0", features = ["rand_core"] }
futures-util = { version = "0.3", default-features = false }
rand = "0.8"
reqwest = { version = "0.12", default-features = false, features = ["json", "rustls-tls"] }
serde = { version = "1", features = ["derive"] }
serde_json = "=1.0.154"
thiserror = "1"
tokio = { version = "1", features = ["full"] }
tokio-util = "0.7"
toml = "=0.8.23"
tracing = "0.1"
tracing-subscriber = { version = "0.3", features = ["env-filter"] }
