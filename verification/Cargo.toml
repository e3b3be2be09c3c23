[package]
name = "pixel_canvas"
version = "0.1.0"
edition = "2021"
publish = false

[dependencies]
async-signal = "0.2"
futures-util = "0.3"
image = { version = "0.25", default-features = false, features = ["png"] }
poem = { version = "3", features = ["static-files"] }
serde = { version = "1", features = ["derive"] }
tokio = { version = "1", features = ["macros", "rt-multi-thread"] }
tracing-subscriber = "0.3"
