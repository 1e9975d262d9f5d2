[package]
name = "kv_put"
version = "0.1.0"
edition = "2021"
publish = false

[dependencies]
serde_json = "*"
url = "*"
cloudflare = "*"
reqwest = { version = "*", default-features = false, features = ["blocking", "multipart", "json"] }
