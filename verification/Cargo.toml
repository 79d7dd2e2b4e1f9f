[package]
name = "command_reader"
version = "0.1.0"
edition = "2021"
publish = false

[dependencies]
async-trait = "*"
miette = "*"
tokio = { version = "*", features = ["process", "io-util", "rt-multi-thread", "macros", "time"] }
