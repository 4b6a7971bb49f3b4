[package]
name = "macpack_runtime"
version = "0.2.0"
edition = "2021"
publish = false

[dependencies]
toml = "0.8"
zip = "2"
tempfile = "3"
clap = { version = "4", features = ["derive"] }
