[package]
name = "fetch_bridge"
version = "0.1.0"
edition = "2021"
publish = false

[dependencies]
image = "=0.25.10"
reqwest = { version = "=0.12.28", default-features = false }
bevy-wasm-tasks = { version = "=0.18.0", features = ["tokio"] }
bevy = { version = "=0.18.1", default-features = false }
