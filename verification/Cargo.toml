[package]
name = "noob"
version = "0.1.0"
edition = "2021"
publish = false

[dependencies]
serde_json = "1"
percent-encoding = "2"
form_urlencoded = "1"
serde = "1"
serde_derive = "1"
hyper = { version = "0.14", features = ["client", "http1", "tcp"] }
hyper-tls = "0.5"
tokio = { version = "1", features = ["rt", "time", "net", "macros"] }
tokio-tungstenite = "0.20"
futures = "0.3"
url = "2"
