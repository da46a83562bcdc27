[package]
name = "dbcrossbarlib"
version = "0.1.0"
edition = "2021"
publish = false

[dependencies]
bitflags = "1"
serde_json = "1"
