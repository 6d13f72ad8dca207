[package]
name = "lnm_sdk"
version = "0.1.0"
edition = "2021"
publish = false

[dependencies]
serde = "1"
thiserror = "2"

[dev-dependencies]
serde_json = "1"
