[package]
name = "notify_error"
version = "0.1.0"
edition = "2021"
publish = false

[dependencies]
dbus = { version = "=0.9.12", features = ["vendored"] }
zbus = "=6.1.0"
mac-notification-sys = "=0.6.15"
