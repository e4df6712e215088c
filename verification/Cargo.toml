[package]
name = "gouqi"
version = "0.1.0"
edition = "2021"
publish = false

[dependencies]
url = "2"
serde = { version = "1", features = ["derive"] }
serde_json = "1"
reqwest = { version = "0.12", default-features = false, features = ["blocking"] }
time = { version = "0.3", features = ["parsing", "formatting", "serde-well-known"] }
base64 = "0.22"
