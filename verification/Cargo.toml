[package]
name = "yaml_args"
version = "0.1.0"
edition = "2021"
publish = false

[dependencies]
clap = { version = "4", features = ["string"] }
thiserror = "1"
yaml-rust = "0.4"

[dev-dependencies]
regex = "1"
