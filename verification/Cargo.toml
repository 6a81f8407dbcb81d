[package]
name = "sponge_fuzz"
version = "0.1.0"
edition = "2021"
publish = false

[dependencies]
revm = { version = "*", default-features = false, features = ["std"] }
tiny-keccak = { version = "*", features = ["keccak"] }
rand = "*"
clap = { version = "*", features = ["derive"] }
indicatif = "*"
tokio = { version = "*", features = ["rt-multi-thread", "macros"] }
