[package]
name = "phasm-av1"
version = "0.1.0"
edition = "2021"
publish = false

[dev-dependencies]
semver = "1"
