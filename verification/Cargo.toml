[package]
name = "yoink"
version = "0.1.0"
edition = "2021"
publish = false

[dependencies]
gvdb = "=0.10.1"
anyhow = "=1.0.104"
clap = { version = "=4.6.7", features = ["derive"] }
