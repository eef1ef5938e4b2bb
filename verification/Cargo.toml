[package]
name = "red_crab"
version = "0.1.0"
edition = "2021"
publish = false

[dependencies]
async-trait = "*"
chrono = "=0.4.45"
reqwest = { version = "=0.13.5", default-features = false, features = ["form"] }
rust_decimal = "*"
serde = { version = "*", features = ["derive"] }
serde_json = "*"
serde_urlencoded = "=0.7.1"
thiserror = "*"
url = "=2.5.8"
