[package]
name = "retro_control"
version = "0.1.0"
edition = "2021"
publish = false

[dependencies]
evdev = "0.12"
tokio = { version = "1", features = ["rt-multi-thread", "net", "io-util", "sync", "time", "macros", "signal"] }
