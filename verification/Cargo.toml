[package]
name = "acd"
version = "0.1.0"
edition = "2021"
publish = false

[dependencies]
rustc-serialize = "*"
rust-crypto = "*"
rand = "*"
time = "*"
url = "*"
rusqlite = { version = "*", features = ["bundled"] }
ureq = { version = "*", default-features = false }
