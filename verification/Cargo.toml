[package]
name = "sumi"
version = "0.1.0"
edition = "2021"
publish = false

[dependencies]
json = "*"
sha3 = "*"
convert_case = "*"
clap = { version = "*", features = ["derive"] }
