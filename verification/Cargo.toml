[package]
name = "dictation"
version = "0.1.0"
edition = "2021"
publish = false

[dependencies]
regex = "*"
serde_json = "*"
reqwest = { version = "*", default-features = false, features = ["blocking", "multipart", "rustls-tls"] }
cpal = "*"

[dev-dependencies]
hound = "*"
