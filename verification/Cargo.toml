[package]
name = "mordoprojekt"
version = "0.1.0"
edition = "2021"
publish = false

[dependencies]
serenity = "0.12"
poise = "0.6"
tokio = { version = "1", features = ["rt-multi-thread", "sync", "macros"] }
image = { version = "0.24", default-features = false, features = ["png"] }
openai-api-rs = "2"
daemonizr = "*"
nix = { version = "0.27", features = ["signal", "process"] }
serde = { version = "1", features = ["derive"] }
toml = "0.8"
