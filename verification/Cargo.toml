[package]
name = "hyprlib"
version = "0.1.0"
edition = "2021"
publish = false

[dependencies]
thiserror = "1"
tokio = { version = "1", features = ["rt-multi-thread", "macros", "net", "io-util", "signal", "time"] }
tracing = "0.1"
tracing-subscriber = "0.3"
