[package]
name = "auth_core"
version = "0.1.0"
edition = "2021"
publish = false

[dependencies]
jsonwebtoken = { version = "=11.1.0", features = ["rust_crypto"] }
bcrypt = "=0.19.3"
serde = { version = "=1.0.229", features = ["derive"] }
serde_json = "=1.0.151"
axum = "=0.8.9"
axum-extra = { version = "=0.12.6", features = ["typed-header", "cookie"] }
tokio = { version = "=1.53.2", features = ["rt-multi-thread", "macros", "net"] }
chrono = "=0.4.45"
uuid = { version = "=1.27.0", features = ["v4"] }
dotenvy = "=0.15.7"
oauth2 = "=5.0.0"
reqwest = { version = "=0.12.28", default-features = false, features = ["json", "rustls-tls"] }
lettre = { version = "=0.11.23", default-features = false, features = ["smtp-transport", "builder", "rustls-tls", "hostname"] }
