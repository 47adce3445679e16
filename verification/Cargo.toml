[package]
name = "lyra"
version = "0.1.0"
edition = "2021"
publish = false

[dependencies]
argon2 = "0.5"
sha2 = "0.10"
base64 = "0.22"
rand = "0.10"
axum = "0.7"
axum-server = { version = "0.7", features = ["tls-rustls"] }
tower-http = { version = "0.6", features = ["cors", "fs"] }
tokio = { version = "1", features = ["macros", "rt-multi-thread", "process", "time"] }
sqlx = { version = "0.8", default-features = false, features = ["runtime-tokio", "sqlite", "migrate"] }
serde = { version = "1", features = ["derive"] }
serde_json = "1"
jsonwebtoken = { version = "10", features = ["rust_crypto"] }
dotenv = "0.15"
reqwest = { version = "0.12", default-features = false, features = ["json"] }
