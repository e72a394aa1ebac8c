[package]
name = "acsrs"
version = "0.1.0"
edition = "2021"
publish = false

[dependencies]
bytes = "1"
eyre = "0.6"
http-body-util = "0.1"
hyper = "1"
native-tls = "0.2"
openssl = "0.10"
quick-xml = { version = "0.31", features = ["serialize"] }
rand = "0.8"
serde = { version = "1", features = ["derive"] }
tokio = { version = "1", features = ["sync"] }
