[package]
name = "symdex_store"
version = "0.1.0"
edition = "2021"
publish = false

[dependencies]
fs2 = "0.4"
reqwest = { version = "0.12", default-features = false, features = ["blocking", "json"] }
rusqlite = { version = "*", features = ["bundled"] }
serde = { version = "1", features = ["derive"] }
serde_json = "1"
zerocopy = "0.8"
