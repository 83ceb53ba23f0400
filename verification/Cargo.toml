[package]
name = "axoproject"
version = "0.1.0"
edition = "2021"
publish = false

[dependencies]
axoasset = "*"
camino = "*"
semver = "*"
serde_json = "*"
toml = "*"
