[package]
name = "crypto_db"
version = "0.1.0"
edition = "2021"
publish = false

[dependencies]
rusqlite = { version = "=0.40.2", features = ["bundled-sqlcipher-vendored-openssl"] }
serde_json = "=1.0.151"
base64 = "=0.23.1"
once_cell = "=1.21.4"
