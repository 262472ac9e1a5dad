[package]
name = "puzzle"
version = "0.1.0"
edition = "2021"
publish = false

[dependencies]
bevy = { version = "=0.18.1", default-features = false }
ron = "=0.12.3"
serde = { version = "=1.0.229", features = ["derive"] }
thiserror = "=2.0.21"
