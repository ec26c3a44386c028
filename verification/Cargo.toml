[package]
name = "snapmail_attachment"
version = "0.1.0"
edition = "2021"
publish = false

[dependencies]
anyhow = "1"
base64 = "0.13"
directories = "*"
holo_hash = { version = "*", features = ["encoding"] }
lazy_static = "1"
regex = "1"
structopt = "0.3"
