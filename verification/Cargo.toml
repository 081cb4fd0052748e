[package]
name = "vector"
version = "0.1.0"
edition = "2021"
publish = false

[dependencies]
futures = "=0.3.34"
http = "0.2"
openssl = "=0.10.81"
regex = "=1.13.1"
serde = { version = "=1.0.229", features = ["derive"] }
serde_json = "=1.0.154"
snafu = "=0.6.10"
socket2 = "=0.6.5"
tokio = { version = "=1.54.1", features = ["io-util", "net", "rt"] }
tokio-openssl = "=0.6.5"
toml = "=0.5.11"
