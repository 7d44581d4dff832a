[package]
name = "ip_api_api"
version = "0.1.0"
edition = "2021"
publish = false

[dependencies]
serde_json = { version = "*", features = ["raw_value"] }
url = "*"
http-api-client-endpoint = "*"
http-api-reqwest-client = "*"
futures-lite = "*"
pretty_env_logger = "*"
