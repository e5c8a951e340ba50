[package]
name = "proxma"
version = "0.1.0"
edition = "2021"
publish = false

[dependencies]
anyhow = "1"
bcrypt = "*"
bollard = "0.18"
chrono = "0.4"
cloudflare = { version = "*", default-features = false, features = ["rustls-tls"] }
futures = "0.3"
idna = "*"
lazy_static = "1"
serde = { version = "1", features = ["derive"] }
tokio = { version = "1", features = ["full"] }
