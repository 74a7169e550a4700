[package]
name = "reazonspeech_rs"
version = "0.1.0"
edition = "2021"
publish = false

[dependencies]
hf-hub = { version = "=0.4.3", default-features = false, features = ["ureq", "rustls-tls"] }
anyhow = "=1.0.104"
clap = { version = "=4.5.61", features = ["derive"] }
