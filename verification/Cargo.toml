[package]
name = "sp_variant"
version = "0.1.0"
edition = "2021"
publish = false

[dependencies]
regex = "*"
anyhow = "*"
clap = { version = "*", features = ["derive"] }
nix = { version = "*", features = ["fs", "user"] }
serde = { version = "*", features = ["derive"] }
serde_json = "*"
thiserror = "*"
