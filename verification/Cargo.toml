[package]
name = "bollard"
version = "0.1.0"
edition = "2021"
publish = false

[dependencies]
arrayvec = "0.4"
bytes = "0.4"
failure = "0.1"
futures = "0.1"
hex = "0.4"
http = "0.1"
hyper = { version = "0.12", default-features = false }
serde = { version = "1", features = ["derive"] }
serde_json = "1"
serde_urlencoded = "0.6"
tokio-codec = "0.1"
tokio-io = "0.1"
url = "2"
