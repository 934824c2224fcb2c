[package]
name = "remtene_application"
version = "0.1.0"
edition = "2021"
publish = false

[dependencies]
futures = "0.3"
serde_json = "1"
thiserror = "2"
zeroize = "1"
