[package]
name = "strixctl"
version = "0.1.0"
edition = "2021"
publish = false

[dependencies]
serde = { version = "1", features = ["derive"] }
serde_json = "1"
tokio = { version = "1", features = ["rt-multi-thread", "macros", "time", "sync"] }
futures-util = "0.3"
iced = { version = "=0.13.1", default-features = false, features = ["tiny-skia", "canvas", "tokio"] }
