[package]
name = "netease_music_api"
version = "0.1.0"
edition = "2021"
publish = false

[dependencies]
urlqstring = "=0.3.5"
hex = "=0.4.3"
rand = "=0.7.3"
openssl = "=0.10.82"
base64 = "=0.11.0"
serde = { version = "=1.0.229", features = ["derive"] }
serde_json = "=1.0.154"
lazy_static = "=1.5.1"
reqwest = { version = "=0.10.10", features = ["blocking", "json"] }
actix-web = "4"
listenfd = "=0.3.5"
