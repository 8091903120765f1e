[package]
name = "sandbox_engine"
version = "0.1.0"
edition = "2021"
publish = false

[dependencies]
axum = "*"
tokio = { version = "*", features = ["macros", "rt-multi-thread", "net"] }
tracing-subscriber = "*"
ureq = "*"
v8 = "*"
