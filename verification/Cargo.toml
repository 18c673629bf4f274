[package]
name = "hourglass_control"
version = "0.1.0"
edition = "2021"
publish = false

[dependencies]
crossbeam-channel = "0.5"
actix-web = { version = "3", default-features = false }
