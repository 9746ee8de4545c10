[package]
name = "neotrellis"
version = "0.1.0"
edition = "2021"
publish = false

[dependencies]
embedded-hal = "0.2"
num_enum = { version = "0.5", default-features = false }
