[package]
name = "vault_core"
version = "0.1.0"
edition = "2021"
publish = false

[dependencies]
aes-gcm = "0.10"
argon2 = "0.5"
axum = "0.6"
base64 = "0.22"
chrono = "0.4"
dotenv = "0.15"
rand_core = { version = "0.6", features = ["getrandom"] }
reqwest = { version = "0.11", features = ["json"] }
serde = { version = "1", features = ["derive"] }
serde_json = "1"
tokio = { version = "1", features = ["macros", "rt-multi-thread"] }
tokio-postgres = "0.7"
uuid = { version = "1", features = ["v4"] }
