[package]
name = "ez-books"
version = "1.0.1"
edition = "2021"
publish = false

[dependencies]
ammonia = "*"
bytes = "1"
epub = "*"
futures = "0.3"
image = { version = "*", default-features = false, features = ["jpeg", "png", "gif", "bmp", "webp"] }
mime_guess = "2"
reqwest = { version = "0.11", default-features = false, features = ["rustls-tls"] }
rust-embed = "8"
serde = { version = "1", features = ["derive"] }
serde_json = "1"
sqlx = { version = "0.7", default-features = false, features = ["sqlite", "runtime-tokio"] }
thiserror = "1"
tokio = { version = "1", features = ["full"] }
tracing = "0.1"
tracing-subscriber = { version = "0.3", features = ["env-filter"] }
uuid = { version = "1", features = ["v4"] }
warp = "0.3"
