[package]
name = "swww_proto"
version = "0.1.0"
edition = "2021"
publish = false

[dependencies]
bitcode = "0.6"
log = "0.4"
rustix = { version = "0.38", features = ["net"] }
