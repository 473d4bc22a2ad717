[package]
name = "prism_da"
version = "0.1.0"
edition = "2021"
publish = false

[dependencies]
ed25519-dalek = "2"
k256 = "0.13"
serde = { version = "=1.0.229", features = ["derive"] }
async-trait = "=0.1.92"
tokio = { version = "=1.53.2", features = ["sync"] }
anyhow = "=1.0.104"
