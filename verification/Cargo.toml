[package]
name = "screen_capture"
version = "0.1.0"
edition = "2021"
publish = false

[dependencies]
anyhow = "=1.0.104"
dbus = { version = "=0.9.12", features = ["vendored"] }
percent-encoding = "=2.3.2"
png = "=0.17.16"
xcb = "=1.7.1"
