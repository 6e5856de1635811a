[package]
name = "decide"
version = "0.1.0"
edition = "2021"
publish = false

[dependencies]
serde_json = "1"
ureq = "3"
clap = { version = "4", features = ["derive", "env", "wrap_help"] }
rpassword = "7"
