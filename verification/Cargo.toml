[package]
name = "bakawm"
version = "0.1.0"
edition = "2021"
publish = false

[dependencies]
anyhow = "=1.0.104"
async-channel = "2"
async-io = "2"
calloop = "=0.14.5"
dirs = "=7.0.0"
glam = "*"
mlua = { version = "=0.12.2", features = ["lua54", "vendored"] }
notify = "*"
serde = { version = "=1.0.229", features = ["derive"] }
serde_json = "=1.0.154"
smithay = { version = "=0.7.0", default-features = false, features = ["desktop", "wayland_frontend"] }
tracing = "0.1"
tracing-subscriber = { version = "0.3", features = ["env-filter"] }
xkbcommon = "=0.9.0"
xkeysym = "=0.2.1"
zbus = "5"
