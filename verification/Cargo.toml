[package]
name = "clonetool"
version = "0.2.0"
edition = "2021"
publish = false

[dependencies]
serde_json = "1"
clap = "4"
reqwest = { version = "0.12", default-features = false, features = ["blocking", "rustls-tls"] }
