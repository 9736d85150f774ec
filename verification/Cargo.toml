[package]
name = "wlcontrol"
version = "0.1.0"
edition = "2021"
publish = false

[dependencies]
serde = { version = "1", features = ["derive"] }
serde_json = { version = "1", features = ["preserve_order"] }
toml = "0.8"
clap = { version = "4", features = ["derive"] }
directories = "5"
nix = { version = "0.29", features = ["socket", "poll"] }
