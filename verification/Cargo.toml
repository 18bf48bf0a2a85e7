[package]
name = "nextcloud_appinfo"
version = "0.1.0"
edition = "2021"
publish = false

[dependencies]
semver = "0.11"
thiserror = "1"
xpath_reader = "0.5"
