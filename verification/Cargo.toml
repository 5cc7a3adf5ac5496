[package]
name = "rruxwry"
version = "0.1.0"
edition = "2021"
publish = false

[dependencies]
clap = { version = "4", features = ["derive"] }
joinery = "3"
rustc-hash = "2"
shlex = "1"
