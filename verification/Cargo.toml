[package]
name = "nodemap"
version = "0.1.0"
edition = "2021"
publish = false

[dependencies]
dns-lookup = "=1.0.8"
clap = "=3.2.25"
serde = { version = "1", features = ["derive"] }
serde_json = "1"
tracert = "=0.5.2"
libc = "0.2"
