[package]
name = "wb"
version = "0.1.0"
edition = "2021"
publish = false

[dependencies]
glob-match = "*"
anyhow = "*"
clap = { version = "*", features = ["derive"] }
colored = "*"
thiserror = "*"
