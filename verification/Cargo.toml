[package]
name = "lightyear_sync"
version = "0.1.0"
edition = "2021"
publish = false

[dependencies]
bevy = { version = "=0.12.1", default-features = false }
chrono = "=0.4.45"
tracing = "0.1"
