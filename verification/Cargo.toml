[package]
name = "nop_preprocessor"
version = "0.1.0"
edition = "2021"
publish = false

[dependencies]
clap = "2"
mdbook = { version = "0.4", default-features = false }
serde_json = "1"
