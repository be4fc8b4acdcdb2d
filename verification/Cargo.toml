[package]
name = "pg_proto"
version = "0.1.0"
edition = "2021"
publish = false

[dependencies]
base64 = "0.22"
bytes = "1"
hmac = "0.13"
postgres-protocol = "0.6"
rand = "0.10"
rustls = { version = "0.23", default-features = false, features = ["std"] }
sha2 = "0.11"
socket2 = { version = "0.6", features = ["all"] }
stringprep = "0.1"
subtle = "2"
tokio = { version = "1", features = ["io-util", "macros", "net", "rt", "sync", "time"] }
tokio-util = { version = "0.7", features = ["codec"] }
