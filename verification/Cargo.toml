[package]
name = "astock"
version = "0.1.0"
edition = "2021"
publish = false

[dependencies]
rust_decimal = "1"
chrono = "0.4"
encoding_rs = "0.8"
serde = { version = "1", features = ["derive"] }
serde_json = "1"
ta = "0.5"
anyhow = "1"
thiserror = "*"
clap = { version = "4", features = ["derive"] }
tokio = { version = "1", features = ["full"] }
reqwest = { version = "0.12", default-features = false, features = ["json", "rustls-tls"] }
rusqlite = { version = "*", features = ["bundled"] }
axum = "*"
tower-http = { version = "*", features = ["cors"] }
comfy-table = "7"
ctrlc = "3"
notify-rust = "4"
