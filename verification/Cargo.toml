[package]
name = "mm_chain"
version = "0.1.0"
edition = "2021"
publish = false

[dependencies]
risc0-zkvm = "*"
bincode = "1"
clap = { version = "4", features = ["derive"] }
