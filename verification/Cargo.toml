[package]
name = "rust_playground"
version = "0.1.0"
edition = "2021"
publish = false

[dependencies]
futures = "0.3"
serde = "1"
serde_derive = "1"
serde_json = "1"
tokio = { version = "0.2", features = ["macros", "rt-threaded", "stream", "sync"] }
warp = { version = "0.2", default-features = false }
