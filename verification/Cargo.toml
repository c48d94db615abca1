[package]
name = "cue-sdk"
version = "0.1.0"
edition = "2021"
publish = false

[dependencies]
cue-sdk-sys = "*"
semver = "0.9"
thiserror = "1"
tokio = { version = "1", default-features = false, features = ["sync"] }
