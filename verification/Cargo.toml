[package]
name = "yana_media"
version = "0.1.0"
edition = "2021"
publish = false

[dependencies]
image = "*"
webp = "*"
sha2 = "*"
base64 = "*"
mime_guess = "*"
uuid = { version = "*", features = ["v4"] }
chrono = "*"
serde = { version = "*", features = ["derive"] }
serde_json = "*"
tempfile = "*"
rayon = "*"
reqwest = { version = "*", default-features = false, features = ["rustls-tls"] }
tokio = { version = "*", features = ["rt-multi-thread", "macros", "time"] }
futures = "*"
rusty-s3 = "*"
url = "*"
log = "*"
