[package]
name = "commander"
version = "0.1.0"
edition = "2021"
publish = false

[dependencies]
clap = { version = "4", features = ["string"] }
rustyline = "*"

[dev-dependencies]
shlex = "1"
