[package]
name = "pf_client_core"
version = "0.1.0"
edition = "2021"
publish = false

[dependencies]
anyhow = "=1.0.104"
async-channel = "=2.5.0"
opus = "=0.3.1"
rand = "=0.10.3"
rustls = { version = "=0.23.46", default-features = false, features = ["std", "tls12"] }
sdl3 = { version = "=0.18.4", features = ["hidapi"] }
serde = { version = "=1.0.229", features = ["derive"] }
serde_json = "=1.0.154"
tracing = "=0.1.44"
ureq = { version = "=3.5.1", default-features = false, features = ["rustls-no-provider"] }
