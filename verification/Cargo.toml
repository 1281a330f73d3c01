[package]
name = "posthog_rs"
version = "0.3.7"
edition = "2021"
publish = false

[dependencies]
log = "0.4"
reqwest = { version = "0.12", default-features = false, features = ["blocking", "rustls-tls"] }
serde = { version = "1", features = ["derive"] }
serde_json = "1"
