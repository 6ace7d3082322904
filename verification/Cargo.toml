[package]
name = "community_web"
version = "0.1.0"
edition = "2021"
publish = false

[dependencies]
base64 = "0.22"
uuid = { version = "1", features = ["v4"] }
chrono = { version = "0.4", features = ["serde"] }
serde = { version = "1", features = ["derive"] }
serde_json = "1"
bincode = "1"
anyhow = "1"
either = "1"
lazy_static = "1"
dotenvy = "0.15"
rocket = { version = "0.5", features = ["json"] }
rocket_cors = "0.6"
diesel = { version = "2", features = ["postgres", "r2d2", "chrono"] }
diesel_migrations = { version = "2", features = ["postgres"] }
redis = { version = "0.27", features = ["tokio-comp"] }
reqwest = { version = "0.12", default-features = false, features = ["json"] }
lettre = { version = "0.11", default-features = false, features = ["builder", "smtp-transport", "tokio1", "tokio1-rustls-tls", "hostname"] }
