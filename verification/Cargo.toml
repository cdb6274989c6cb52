[package]
name = "webp_anim"
version = "0.1.0"
edition = "2021"
publish = false

[dependencies]
tokio = { version = "1", features = ["sync", "rt-multi-thread"] }
image = "0.24"
uuid = { version = "1", features = ["v4"] }
thiserror = "1"
