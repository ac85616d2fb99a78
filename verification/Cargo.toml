[package]
name = "sshs"
version = "0.1.0"
edition = "2021"
publish = false

[dependencies]
clap = "4"
console = "0.15"
dialoguer = { version = "0.11", default-features = false }
home = "0.5"
serde_json = "1"
