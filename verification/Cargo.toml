[package]
name = "rn_bindgen"
version = "0.1.0"
edition = "2021"
publish = false

[dependencies]
anyhow = "1"
askama = "0.11"
camino = "1"
clap = { version = "3", features = ["derive"] }
heck = "0.4"
serde = { version = "1", features = ["derive"] }
toml = "0.5"
uniffi_bindgen = "0.23"
