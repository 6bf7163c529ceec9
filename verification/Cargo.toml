[package]
name = "bayou"
version = "0.1.0"
edition = "2021"
publish = false

[dependencies]
openssl = "0.10"
url = "2"
argon2 = "0.5"
httpdate = "1"
ed25519 = { version = "2", features = ["pkcs8", "alloc"] }
ed25519-dalek = { version = "2", features = ["pkcs8", "pem", "rand_core"] }
rand = "0.8"
serde = { version = "1", features = ["derive"] }
serde_json = "1"
thiserror = "1"
async-trait = "0.1"
actix-web = "4"
reqwest = { version = "0.12", default-features = false }
tokio-postgres = "0.7"
deadpool-postgres = "0.14"
config = { version = "0.14", default-features = false, features = ["toml"] }
