[package]
name = "caudex"
version = "0.1.0"
edition = "2021"
publish = false

[dependencies]
infer = "0.16"
sha2 = "0.10"
serde = { version = "1", features = ["derive"] }
serde_json = "1"
time = { version = "0.3", features = ["formatting"] }
walkdir = "2"
tokio = { version = "1", features = ["rt", "time", "macros"] }
sqlx = { version = "0.8", default-features = false, features = ["runtime-tokio", "sqlite", "macros", "migrate"] }
tantivy = "0.22"
reqwest = { version = "0.12", default-features = false, features = ["json", "rustls-tls"] }
