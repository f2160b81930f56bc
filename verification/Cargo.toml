[package]
name = "push_fanout"
version = "0.1.0"
edition = "2021"
publish = false

[dependencies]
web-push = { version = "0.10", default-features = false, features = ["hyper-client"] }
uuid = { version = "1", features = ["v4"] }
axum = "0.7"
tokio = { version = "1", features = ["rt-multi-thread", "macros", "net"] }
serde = { version = "1", features = ["derive"] }
serde_json = "1"
