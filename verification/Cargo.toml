[package]
name = "sanitize_csv"
version = "0.1.0"
edition = "2021"
publish = false

[dependencies]
clap = { version = "4", features = ["derive"] }
csv = "1"
encoding_rs = "0.8"
encoding_rs_io = "0.1"
