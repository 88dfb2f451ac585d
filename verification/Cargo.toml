[package]
name = "rtool"
version = "0.1.0"
edition = "2021"
publish = false

[dependencies]
serde_json = "1"
serde = { version = "1", features = ["derive"] }
serde_derive = "1"
schemars = "0.8"
tokio = { version = "1", features = ["full"] }
reqwest = { version = "0.11", default-features = false, features = ["json", "rustls-tls"] }
clap = "3"
crossterm = "0.27"
simplelog = "0.12"
log = "0.4"
chrono = "0.4"
async-trait = "0.1"
async-recursion = "1"
