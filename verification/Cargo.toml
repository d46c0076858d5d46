[package]
name = "teleapi"
version = "0.1.0"
edition = "2021"
publish = false

[dependencies]
rouille = "*"
clap = { version = "*", features = ["derive"] }
nix = { version = "*", features = ["user", "fs"] }
users = "*"
serde = "*"
serde_derive = "*"
serde_yaml = "*"
