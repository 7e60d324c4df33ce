[package]
name = "dig-social-graph"
version = "0.1.0"
edition = "2021"
publish = false

[dependencies]
dig-identity = "=0.4.2"
dig-message = "=0.3.3"
chia-sdk-utils = "=0.30.0"
hex = "=0.4.3"
serde = { version = "1", features = ["derive"] }
serde_json = "1"
thiserror = "2"
