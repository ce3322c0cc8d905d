[package]
name = "bq25773"
version = "0.1.0"
edition = "2021"
publish = false

[dependencies]
device-driver = { version = "1", default-features = false }
embedded-hal-async = "1.0.0"
