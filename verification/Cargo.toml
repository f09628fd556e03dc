[package]
name = "wascc_errors"
version = "0.1.0"
edition = "2021"
publish = false

[dependencies]
serde_json = "=1.0.151"
wapc = "=2.2.0"
