[package]
name = "secret_auction"
version = "0.1.0"
edition = "2021"
publish = false

[dependencies]
secret-cosmwasm-std = "*"
secret-toolkit = { version = "*", default-features = false, features = ["storage", "permit"] }
serde = { version = "1", features = ["derive"] }
schemars = "0.8"
