[package]
name = "crystallize_core"
version = "0.1.0"
edition = "2021"
publish = false

[dependencies]
anyhow = "=1.0.104"
bcrypt = "=0.19.3"
chrono = "=0.4.45"
clap = { version = "=4.6.7", features = ["derive"] }
flexi_logger = "=0.31.10"
human-panic = "=2.0.8"
indicatif = "=0.18.6"
log = "=0.4.34"
regex = "=1.13.1"
serde = { version = "=1.0.229", features = ["derive"] }
serde_json = "=1.0.154"
tokio = { version = "1", features = ["rt", "time"] }
