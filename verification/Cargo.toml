[package]
name = "elba"
version = "0.1.0"
edition = "2021"
publish = false

[dependencies]
sha2 = "0.10"
semver = "1"
Inflector = { version = "0.11", default-features = false }
tar = "0.4"
