[package]
name = "cnft"
version = "0.1.0"
edition = "2021"
publish = false

[dependencies]
bincode = "=1.3.3"
bs58 = "=0.5.1"
mpl-bubblegum = "=1.4.0"
reqwest = { version = "0.11", default-features = false, features = ["blocking", "json", "rustls-tls"] }
rustler = "*"
serde = { version = "1", features = ["derive"] }
serde_json = "1"
solana-program = "=1.18.26"
solana-sdk = "=1.18.26"
spl-account-compression = { version = "0.4.2", default-features = false }
