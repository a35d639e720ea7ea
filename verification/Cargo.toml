[package]
name = "babangida"
version = "0.1.0"
edition = "2021"
publish = false

[dependencies]
uuid = { version = "=1.29.0", features = ["v4", "v7"] }
argon2 = "=0.5.3"
rand = "=0.8.8"
sha2 = "=0.10.9"
async-trait = "=0.1.92"
serde = { version = "=1.0.229", features = ["derive"] }
serde_json = "=1.0.154"
tokio = { version = "1", features = ["rt-multi-thread", "macros", "net"] }
axum = "0.8"
sqlx = { version = "0.8", default-features = false, features = ["runtime-tokio", "postgres", "uuid", "time", "migrate"] }
time = "0.3"
reqwest = { version = "0.12", default-features = false, features = ["json"] }
keyring = "3"
thiserror = "2"
