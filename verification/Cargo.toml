[package]
name = "verba"
version = "0.1.0"
edition = "2021"
publish = false

[dependencies]
url = "2"
uuid = { version = "1", features = ["v4"] }
serde = { version = "1", features = ["derive"] }
serde_json = "1"
toml = "0.8"
thiserror = "1"
clap = { version = "4", features = ["derive"] }
dirs = "5"
tokio = { version = "1", features = ["full"] }
tracing = "0.1"
zbus = "4"
ksni = "0.2"
reqwest = { version = "0.12", default-features = false, features = ["json", "rustls-tls"] }
gtk4 = "0.9"
glib = "0.20"
secret-service = { version = "4", features = ["rt-tokio-crypto-rust"] }
