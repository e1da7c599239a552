[package]
name = "loon"
version = "0.1.0"
edition = "2021"
publish = false

[dependencies]
regex = "1"
hound = "3"
serde = { version = "1", features = ["derive"] }
serde_json = "1"
axum = { version = "0.8", features = ["multipart"] }
tokio = { version = "1", features = ["macros", "rt-multi-thread", "net", "fs", "time", "io-util"] }
tower-http = { version = "0.6", features = ["cors"] }
futures-util = "0.3"
reqwest = { version = "0.12", default-features = false, features = ["json", "multipart", "stream"] }
rusqlite = { version = "0.32", features = ["bundled"] }
tempfile = "3"
