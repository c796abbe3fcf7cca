[package]
name = "ajuna_worker"
version = "0.1.0"
edition = "2021"
publish = false

[dependencies]
parity-scale-codec = { version = "3", features = ["derive"] }
sp-core-hashing = "*"
clap = { version = "3", features = ["derive"] }
log = "0.4"
