[package]
name = "lore"
version = "0.1.0"
edition = "2021"
publish = false

[dependencies]
axum = { version = "0.8", default-features = false }
bytes = "1"
parking_lot = "0.12"
serde = { version = "1", features = ["derive"] }
tokio = { version = "1", features = ["rt", "sync"] }

[dev-dependencies]
tower = { version = "0.5", features = ["util"] }
