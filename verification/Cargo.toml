[package]
name = "meufchrer"
version = "0.1.0"
edition = "2021"
publish = false

[dependencies]
anyhow = "1"
axum = { version = "=0.7.9", features = ["ws"] }
futures = "0.3"
serenity = "=0.12.5"
shuttle-runtime = "=0.47.0"
tokio = { version = "1", features = ["macros", "net", "rt-multi-thread", "time"] }
tracing = "0.1"
