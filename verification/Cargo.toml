[package]
name = "cfloader"
version = "0.1.0"
edition = "2021"
publish = false

[dependencies]
anyhow = "=1.0.104"
crazyradio = { version = "=0.7.0", features = ["shared_radio"] }
