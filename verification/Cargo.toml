[package]
name = "public_trading"
version = "0.1.0"
edition = "2021"
publish = false

[dependencies]
anyhow = "1"
bitwarden = "1"
chrono = { version = "=0.4.45", features = ["serde"] }
reqwest = { version = "0.12", default-features = false, features = ["json", "rustls-tls-no-provider"] }
rustls = "=0.23.20"
serde = { version = "1", features = ["derive"] }
serde_json = "1"
tokio = { version = "1", features = ["macros", "rt-multi-thread", "fs", "time"] }
toml = "0.8"
tracing = "0.1"
tracing-subscriber = "0.3"
url = "=2.5.8"
uuid = { version = "1", features = ["serde"] }
