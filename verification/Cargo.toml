[package]
name = "beak"
version = "0.1.0"
edition = "2021"
publish = false

[dependencies]
matchit = "=0.9.2"
multipart = { version = "=0.18.0", default-features = false, features = ["server"] }
thiserror = "=2.0.21"
tiny_http = "=0.12.0"
