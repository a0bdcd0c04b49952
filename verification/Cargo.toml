[package]
name = "pacifica"
version = "0.1.0"
edition = "2021"
publish = false

[dependencies]
bs58 = "=0.5.1"
chrono = "=0.4.45"
clap = { version = "=4.6.7", features = ["derive"] }
ed25519-dalek = "=2.2.0"
futures-util = { version = "=0.3.34", features = ["sink"] }
hftbacktest = { version = "=0.9.4", default-features = false, features = ["backtest"] }
rand = "=0.9.5"
reqwest = { version = "=0.12.28", default-features = false, features = ["rustls-tls"] }
serde = { version = "=1.0.229", features = ["derive"] }
serde_json = "=1.0.154"
thiserror = "=2.0.21"
tokio = { version = "=1.54.1", features = ["macros", "net", "rt-multi-thread", "sync", "time"] }
tokio-tungstenite = { version = "=0.26.2", features = ["rustls-tls-webpki-roots"] }
toml = "=0.8.23"
tracing = "=0.1.44"
