[package]
name = "twitter_client"
version = "0.1.0"
edition = "2021"
publish = false

[dependencies]
base64 = "0.13"
hmac-sha1 = "0.1"
urlencoding = "2"
serde_json = "1"
serde = { version = "1", features = ["derive"] }
toml = "0.5"
home = "0.5"
getrandom = "0.2"
reqwest = { version = "0.11", default-features = false, features = ["blocking", "json", "rustls-tls"] }
