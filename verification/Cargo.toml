[package]
name = "vash"
version = "0.1.0"
edition = "2021"
publish = false

[dependencies]
tokio = { version = "*", features = ["full"] }
nix = { version = "*", features = ["signal"] }
termion = "*"
