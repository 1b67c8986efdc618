[package]
name = "apple_ai_bridge"
version = "0.1.0"
edition = "2021"
publish = false

[dependencies]
libc = "0.2"
napi = { version = "2", features = ["napi4"] }
napi-derive = "2"
