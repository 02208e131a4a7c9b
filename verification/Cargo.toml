[package]
name = "qpasswd"
version = "0.5.0"
edition = "2021"
publish = false

[dependencies]
rust-crypto = "0.2.36"
rand = "0.8"
base64 = "0.13"
bishop = "*"
clap = "2.33"
tokio = { version = "1", features = ["rt-multi-thread", "macros"] }
iced = "0.3"

[dev-dependencies]
rand_core = { version = "0.6", features = ["getrandom"] }
