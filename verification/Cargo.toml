[package]
name = "onesignal_rest"
version = "0.1.0"
edition = "2021"
publish = false

[dependencies]
serde_json = "=1.0.151"
url = "=2.5.8"
http-api-client-endpoint = "=0.2.1"
http-api-isahc-client = "=0.2.2"
futures-lite = "=2.6.1"
pretty_env_logger = "=0.5.0"
