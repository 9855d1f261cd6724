[package]
name = "mpv_control"
version = "0.1.0"
edition = "2021"
publish = false

[dependencies]
libmpv2 = "*"
tokio = { version = "*", features = ["sync", "rt", "macros", "rt-multi-thread"] }
async-stream = "*"
serde = { version = "*", features = ["derive"] }
