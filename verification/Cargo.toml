[package]
name = "mdbook-internal"
version = "0.1.0"
edition = "2021"
publish = false

[dependencies]
clap = "4"
mdbook = { version = "0.4", default-features = false }
regex = "1"
semver = "1"
serde_json = "1"
toml = "0.5"
