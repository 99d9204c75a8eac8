[package]
name = "gadaj"
version = "0.1.0"
edition = "2021"
publish = false

[dependencies]
hound = "3"
parking_lot = "0.12"
log = "0.4"
env_logger = "0.11"
serde = { version = "1", features = ["derive"] }
serde_json = "1"
thiserror = "1"
chrono = "0.4"
once_cell = "1"
rusqlite = { version = "0.32", features = ["bundled"] }
arboard = { version = "3", default-features = false }
reqwest = { version = "0.12", default-features = false, features = ["rustls-tls", "stream"] }
tokio = { version = "1", features = ["fs", "io-util", "rt"] }
futures-util = "0.3"
rubato = "0.15"
