[package]
name = "pong-core"
version = "0.1.0"
edition = "2021"
publish = false

[dependencies]
anyhow = "=1.0.104"
async-tungstenite = { version = "=0.29.1", features = ["tokio-runtime"] }
bevy = { version = "=0.15.3", default-features = false, features = ["bevy_asset", "bevy_color", "bevy_state"] }
bevy_rapier3d = { version = "=0.28.0", default-features = false, features = ["dim3"] }
futures-util = "=0.3.34"
rand = "=0.9.5"
rustls = { version = "=0.23.46", default-features = false, features = ["ring", "std", "logging", "tls12"] }
rustls-pemfile = "=2.2.0"
tokio = { version = "=1.54.1", features = ["rt-multi-thread", "net", "macros"] }
tokio-rustls = { version = "=0.26.6", default-features = false, features = ["ring", "logging", "tls12"] }
warp = { version = "0.3", features = ["tls"] }
