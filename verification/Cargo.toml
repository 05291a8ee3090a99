[package]
name = "latte_scripting"
version = "0.1.0"
edition = "2021"
publish = false

[dependencies]
aws-sdk-dynamodb = { version = "1", default-features = false }
clap = { version = "4", default-features = false, features = ["std"] }
rmp-serde = "1"
rune = "0.13"
rust-embed = "8"
scylla = "*"
serde = { version = "1", features = ["derive"] }
tokio = { version = "1", features = ["time"] }
try-lock = "0.2"
