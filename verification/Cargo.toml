[package]
name = "zps"
version = "0.1.0"
edition = "2021"
publish = false

[dependencies]
anyhow = "1"
byteorder = "1"
bytes = "1"
chrono = "0.4"
clap = "*"
event-emitter-rs = "*"
kv = "*"
libxid = "*"
semver = "1"
serde = { version = "1", features = ["derive"] }
serde_json = "1"
sha3 = "0.10"
url = "2"
users = "*"
walkdir = "2"
zstd = "*"
