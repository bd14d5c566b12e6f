[package]
name = "cap_recorder"
version = "0.1.0"
edition = "2021"
publish = false

[dependencies]
uuid = { version = "1", features = ["v4"] }
tokio = { version = "1", default-features = false, features = ["sync", "time"] }
napi = { version = "2", default-features = false, features = ["napi4", "async"] }
napi-derive = "2"
