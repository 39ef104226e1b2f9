[package]
name = "bevy_sentry"
version = "0.1.0"
edition = "2021"
publish = false

[dependencies]
bevy = { version = "=0.8.1", default-features = false }
sentry = "=0.27.0"

[dev-dependencies]
sentry = { version = "=0.27.0", features = ["test"] }
